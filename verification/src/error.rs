//! The recoverable errors the device layer reports to its callers.

use vstd::prelude::*;

verus! {

/// Which native call a [`GpuError::NativeCallFailed`] reports on.
#[derive(Clone, Copy, Debug, PartialEq, Eq, Structural)]
pub enum NativeCall {
    CreateDevice,
    CreateTexture,
    CreateShader,
    CreateGraphicsPipeline,
    CreateComputePipeline,
    CreateBuffer,
    CreateSampler,
    CreateTransferBuffer,
    AcquireCommandBuffer,
    AcquireSwapchainTexture,
    BeginCopyPass,
    BeginRenderPass,
    BeginComputePass,
    Submit,
}

/// A recoverable, caller-facing failure.
///
/// Contract violations (stale handles, double frees, a second open pass)
/// are not errors of this kind: they are preconditions of the functions
/// involved, and unverified callers that break them are stopped by a panic,
/// never by silent corruption.
#[derive(Clone, Copy, Debug, PartialEq, Eq, Structural)]
pub enum GpuError {
    /// A native creation, acquisition or submission call reported failure.
    NativeCallFailed(NativeCall),
    /// An upload or download range reaches past the target buffer's
    /// declared size.
    OutOfRange,
    /// A string argument holds an embedded terminator byte.
    InvalidArgument,
    /// The operation needs a window but the device was built without one.
    MissingWindow,
}

} // verus!
