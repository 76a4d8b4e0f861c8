//! Android backend: a context bound to the activity's native window, and
//! headless contexts bound to off-screen pixel buffers.
use vstd::prelude::*;
use vstd::string::StringExecFns;
use crate::egl::{negotiate, context_id, status_result, ContextId, ContextPrototype, Context, Display, Surface};
use crate::types::{Api, ContextError, CreationError, GlAttributes, PixelFormat, PixelFormatRequirements};

verus! {

/// A context bound to the activity's native window.
#[derive(Debug, Clone, PartialEq, Eq)]
pub struct Window {
    pub context: Context,
}

/// Android-specific window options; there are none.
#[derive(Debug, Clone, Copy, Default, PartialEq, Eq, Structural)]
pub struct PlatformSpecificWindowBuilderAttributes;

/// Android-specific headless options; there are none.
#[derive(Debug, Clone, Copy, Default, PartialEq, Eq, Structural)]
pub struct PlatformSpecificHeadlessBuilderAttributes;

/// Handle that wakes a window's event loop from another thread.
#[derive(Debug, Clone, Copy, PartialEq, Eq, Structural)]
pub struct WindowProxy;

/// A context bound to an off-screen pixel buffer.
#[derive(Debug, Clone, PartialEq, Eq)]
pub struct HeadlessContext(pub Context);

/// Identity of the context of the optional sharing window.
pub open spec fn window_shared_id(s: Option<&Window>) -> Option<ContextId> {
    match s {
        Some(w) => Some(context_id(w.context)),
        None => None,
    }
}

/// Identity of the optional sharing headless context.
pub open spec fn headless_shared_id(s: Option<&HeadlessContext>) -> Option<ContextId> {
    match s {
        Some(h) => Some(context_id(h.0)),
        None => None,
    }
}

impl Window {
    /// Creates a context on the activity's native window `native_window`,
    /// whose null handle is an `OsError`, sharing with the context of the
    /// window `opengl` names, if any.
    pub fn new(
        pf_reqs: &PixelFormatRequirements,
        opengl: &GlAttributes<&Window>,
        _pl_attribs: &PlatformSpecificWindowBuilderAttributes,
        native_window: u64,
        display: &Display,
    ) -> (r: Result<Window, CreationError>)
        ensures
            native_window == 0 ==> r matches Err(CreationError::OsError(_)),
            native_window != 0 ==> r == match negotiate(*display, *pf_reqs, *opengl, window_shared_id(opengl.sharing)) {
                Ok(p) => Ok(Window { context: p.bind(Surface::Window(native_window)) }),
                Err(e) => Err(e),
            },
    {
        if native_window == 0 {
            return Err(CreationError::OsError(String::from_str("Android's native window is null")));
        }
        let sharing = match opengl.sharing {
            Some(w) => Some(&w.context),
            None => None,
        };
        let attrs = GlAttributes {
            sharing,
            version: opengl.version,
            profile: opengl.profile,
            debug: opengl.debug,
            vsync: opengl.vsync,
        };
        let proto = match ContextPrototype::new(display, pf_reqs, &attrs) {
            Ok(p) => p,
            Err(e) => return Err(e),
        };
        match proto.finish(native_window) {
            Ok(context) => Ok(Window { context }),
            Err(e) => Err(e),
        }
    }

    /// Records the outcome of the native make-current call.
    pub fn make_current(&mut self, native_status: u32) -> (r: Result<(), ContextError>)
        ensures
            r == status_result(native_status),
            final(self).context.current == r is Ok,
            final(self).context.surface == old(self).context.surface,
            final(self).context.config == old(self).context.config,
    {
        self.context.make_current(native_status)
    }

    pub fn is_current(&self) -> (r: bool)
        ensures
            r == self.context.current,
    {
        self.context.is_current()
    }

    /// Outcome of presenting the back buffer.
    pub fn swap_buffers(&self, native_status: u32) -> (r: Result<(), ContextError>)
        ensures
            r == status_result(native_status),
    {
        self.context.swap_buffers(native_status)
    }

    pub fn get_api(&self) -> (r: Api)
        ensures
            r == self.context.api,
    {
        self.context.get_api()
    }

    pub fn get_pixel_format(&self) -> (r: PixelFormat)
        ensures
            r == self.context.config.format,
    {
        self.context.get_pixel_format()
    }
}

impl WindowProxy {
    /// Wakes the event loop. Android's event loop is driven by the
    /// activity itself, so there is nothing to wake.
    pub fn wakeup_event_loop(&self) {
    }
}

impl HeadlessContext {
    /// Creates a context bound to an off-screen pixel buffer of exactly
    /// `dimensions`, sharing with the context `opengl` names, if any.
    pub fn new(
        dimensions: (u32, u32),
        pf_reqs: &PixelFormatRequirements,
        opengl: &GlAttributes<&HeadlessContext>,
        _pl_attribs: &PlatformSpecificHeadlessBuilderAttributes,
        display: &Display,
    ) -> (r: Result<HeadlessContext, CreationError>)
        ensures
            r == match negotiate(*display, *pf_reqs, *opengl, headless_shared_id(opengl.sharing)) {
                Ok(p) => Ok(HeadlessContext(p.bind(Surface::PBuffer(dimensions.0, dimensions.1)))),
                Err(e) => Err(e),
            },
    {
        let sharing = match opengl.sharing {
            Some(h) => Some(&h.0),
            None => None,
        };
        let attrs = GlAttributes {
            sharing,
            version: opengl.version,
            profile: opengl.profile,
            debug: opengl.debug,
            vsync: opengl.vsync,
        };
        let proto = match ContextPrototype::new(display, pf_reqs, &attrs) {
            Ok(p) => p,
            Err(e) => return Err(e),
        };
        match proto.finish_pbuffer(dimensions) {
            Ok(context) => Ok(HeadlessContext(context)),
            Err(e) => Err(e),
        }
    }

    /// Records the outcome of the native make-current call.
    pub fn make_current(&mut self, native_status: u32) -> (r: Result<(), ContextError>)
        ensures
            r == status_result(native_status),
            final(self).0.current == r is Ok,
            final(self).0.surface == old(self).0.surface,
            final(self).0.config == old(self).0.config,
    {
        self.0.make_current(native_status)
    }

    pub fn is_current(&self) -> (r: bool)
        ensures
            r == self.0.current,
    {
        self.0.is_current()
    }

    /// Outcome of presenting the back buffer.
    pub fn swap_buffers(&self, native_status: u32) -> (r: Result<(), ContextError>)
        ensures
            r == status_result(native_status),
    {
        self.0.swap_buffers(native_status)
    }

    pub fn get_api(&self) -> (r: Api)
        ensures
            r == self.0.api,
    {
        self.0.get_api()
    }

    pub fn get_pixel_format(&self) -> (r: PixelFormat)
        ensures
            r == self.0.config.format,
    {
        self.0.get_pixel_format()
    }
}

} // verus!
