//! Error taxonomy of the renderer.
//!
//! Every detected failure is fatal to the caller: there is no degraded
//! rendering mode. The variants say which configuration or device condition
//! was found, so the process can log it and abort.

use vstd::prelude::*;

verus! {

/// A fatal rendering error.
#[derive(Clone, Copy, Debug, PartialEq, Eq, Structural)]
pub enum RenderError {
    /// The vertical field of view is out of the open interval (0, 180)
    /// degrees, or too small to resolve at the fixed-point scale.
    InvalidFov,
    /// The viewport aspect ratio is not positive.
    InvalidAspect,
    /// A clip plane is not positive, or the near and far planes coincide.
    InvalidPlanes,
    /// A computed matrix left the representable range: an entry too large
    /// for the pipeline to carry, or a determinant that truncated to zero.
    OutOfRange,
    /// A requested volume-texture dimension is zero or above the device
    /// limit.
    InvalidTextureSize,
    /// The compute or graphics shader failed to compile.
    ShaderCompile,
    /// The shader program failed to link.
    ProgramLink,
    /// A dispatch dimension is zero or above the device work-group limit.
    DispatchTooLarge,
    /// The projection-view matrix is singular and cannot be inverted.
    SingularMatrix,
    /// No presentable render target could be acquired this frame.
    NoRenderTarget,
    /// The camera drifted beyond the coordinate range the fixed-point
    /// pipeline can carry.
    CameraOutOfRange,
}

} // verus!
