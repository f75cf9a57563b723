//! Bootstrap of a GPU compute context on top of `wgpu`.
//!
//! The crate holds the decisions of the bootstrap: which adapter to ask for,
//! which optional features to require of the device, how an answer of the GPU
//! API is classified. The requests themselves are asynchronous and are made by
//! the caller, who hands each answer back.

pub mod error;
pub mod features;
pub mod wgpu_context;
