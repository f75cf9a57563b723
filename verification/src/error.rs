//! The ways in which the bootstrap of a GPU context fails.

use vstd::prelude::*;

verus! {

/// `wgpu::RequestDeviceError`: why the GPU API refused to open a device.
/// The verifier does not look inside; the value is carried to the caller
/// as it came.
#[verifier::external_type_specification]
#[verifier::external_body]
pub struct ExRequestDeviceError(wgpu::RequestDeviceError);

/// Why no GPU context could be made.
#[derive(Debug)]
pub enum BitNetError {
    /// No adapter satisfies the selection policy. Expected on a machine
    /// without a GPU; the caller may fall back to the CPU.
    NoSuitableAdapter,
    /// An adapter was found, but it refused the device. Holds the cause as
    /// the GPU API gave it.
    RequestDeviceError(wgpu::RequestDeviceError),
}

} // verus!
