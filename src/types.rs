//! Portable vocabulary shared by every backend: errors, requested
//! attributes, pixel formats and events.
use vstd::prelude::*;

verus! {

/// Error returned while creating a window-backed or headless context.
#[derive(Debug, Clone, PartialEq, Eq)]
pub enum CreationError {
    /// A native call failed; the message describes it.
    OsError(String),
    /// The backend cannot perform the requested operation.
    NotSupported,
    /// No configuration of the display satisfies the requirements.
    NoAvailablePixelFormat,
}

/// Error returned by per-frame context operations.
#[derive(Debug, Clone, PartialEq, Eq)]
pub enum ContextError {
    /// A lower-level failure, with the native error code.
    IoError(u32),
    /// The native context has been invalidated.
    ContextLost,
}

/// Rendering API a context exposes.
#[derive(Debug, Clone, Copy, PartialEq, Eq, Structural)]
pub enum Api {
    OpenGl,
    OpenGlEs,
    WebGl,
}

/// Which API, and which version of it, is requested.
#[derive(Debug, Clone, Copy, PartialEq, Eq)]
pub enum GlRequest {
    /// The latest version of the API the display offers.
    Latest,
    /// Exactly this API, at least this `(major, minor)` version.
    Specific(Api, (u8, u8)),
    /// OpenGL if available, OpenGL ES otherwise.
    GlThenGles,
}

/// OpenGL profile.
#[derive(Debug, Clone, Copy, PartialEq, Eq, Structural)]
pub enum GlProfile {
    Compatibility,
    Core,
}

/// Requested attributes of a context. `S` is the type of the optional
/// sharing reference: the context whose object namespace is shared.
#[derive(Debug, Clone)]
pub struct GlAttributes<S> {
    pub sharing: Option<S>,
    pub version: GlRequest,
    pub profile: Option<GlProfile>,
    pub debug: bool,
    pub vsync: bool,
}

/// Constraints that the selected configuration must satisfy. `None` (or
/// `false` for the flags) places no constraint.
#[derive(Debug, Clone, Copy, PartialEq, Eq, Structural)]
pub struct PixelFormatRequirements {
    pub hardware_accelerated: Option<bool>,
    /// Minimum number of color bits.
    pub color_bits: Option<u8>,
    pub float_color_buffer: bool,
    /// Minimum number of alpha bits.
    pub alpha_bits: Option<u8>,
    /// Minimum number of depth bits.
    pub depth_bits: Option<u8>,
    /// Minimum number of stencil bits.
    pub stencil_bits: Option<u8>,
    pub double_buffer: Option<bool>,
    /// Minimum number of samples per pixel.
    pub multisampling: Option<u16>,
    pub stereoscopy: bool,
    pub srgb: bool,
}

/// Capabilities of a configuration, as reported to the caller.
#[derive(Debug, Clone, Copy, PartialEq, Eq, Structural)]
pub struct PixelFormat {
    pub hardware_accelerated: bool,
    pub color_bits: u8,
    pub alpha_bits: u8,
    pub depth_bits: u8,
    pub stencil_bits: u8,
    pub stereoscopy: bool,
    pub double_buffer: bool,
    /// Samples per pixel; `None` without multisampling.
    pub multisampling: Option<u16>,
    pub srgb: bool,
}

/// A portable window event.
#[derive(Debug, Clone, Copy, PartialEq, Eq, Structural)]
pub enum Event {
    /// The client area now has this width and height.
    Resized(u32, u32),
}

} // verus!
