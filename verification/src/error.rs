//! Failure taxonomy of the rendering core.

use vstd::prelude::*;

verus! {

/// Everything that can go wrong inside the rendering core.
///
/// Startup-time resource failures (`DeviceCreationFailed`,
/// `ResourceCreationFailed`, `ShaderCompilationFailed`, `InvalidHandle`) are
/// fatal: no frame can be produced without the resources they guard.
/// Per-item failures (`DecodeError`, `MapFailed`, `AssetNotFound`) are
/// recovered locally by dropping the offending item or request.
/// `PublishError` is surfaced to the frame loop's caller once per frame.
#[derive(Clone, Copy, Debug, PartialEq, Eq, Structural)]
pub enum RenderError {
    /// The native factory could not produce a device/context pair.
    DeviceCreationFailed,
    /// A native buffer, view, sampler or texture could not be created.
    ResourceCreationFailed,
    /// A shader source failed to compile or load.
    ShaderCompilationFailed,
    /// A creation call handed back a null native pointer.
    InvalidHandle,
    /// Malformed or unsupported encoded image bytes.
    DecodeError,
    /// No encoded bytes could be supplied for a named item.
    AssetNotFound,
    /// The external sink rejected or failed the finished frame.
    PublishError,
    /// The constant-buffer upload could not be mapped.
    MapFailed,
}

} // verus!
