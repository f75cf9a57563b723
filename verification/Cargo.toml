[package]
name = "bitnet_core"
version = "0.1.0"
edition = "2021"
publish = false

[dependencies]
wgpu = { version = "=26.0.1", features = ["noop"] }

[dev-dependencies]
tokio = { version = "=1.54.1", features = ["rt"] }
