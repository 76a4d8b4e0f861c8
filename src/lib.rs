//! OpenGL context creation over native windowing backends: pixel-format
//! negotiation, surface binding, and translation of native window events
//! into a portable event stream.

pub mod types;
pub mod egl;
pub mod wayland;
pub mod android;
pub mod platform;
