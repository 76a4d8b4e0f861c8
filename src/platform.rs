//! Platform dispatch on Linux: a window is backed by exactly one windowing
//! system, chosen when it is created, and every operation forwards to it.
//! An operation that the chosen backend does not offer fails with
//! `NotSupported`.
use vstd::prelude::*;
use crate::egl::{negotiate, context_id, status_result, ContextId, ContextPrototype, Context, Display, Surface};
use crate::types::{Api, ContextError, CreationError, GlAttributes, PixelFormat, PixelFormatRequirements};
use crate::wayland;
use crate::wayland::{Effect, ShellEvent, Step, WaylandSurfaceInfo};

verus! {

/// What the windowing toolkit reports of the window a context is created
/// on: the backend that produced it and that backend's native handles.
#[derive(Debug, Clone, Copy, PartialEq, Eq)]
pub enum NativeWindow {
    /// An X11 window, by its native handle.
    X(u64),
    /// A Wayland window.
    Wayland(WaylandSurfaceInfo),
}

/// Linux-specific window options; there are none.
#[derive(Debug, Clone, Copy, Default, PartialEq, Eq, Structural)]
pub struct PlatformSpecificWindowBuilderAttributes;

/// A context on a window of one of the Linux backends.
#[derive(Debug)]
pub enum Window {
    /// A context bound to an X11 window.
    X(Context),
    Wayland(wayland::Window),
}

/// Non-blocking event retrieval on a window of the backend it names.
#[derive(Debug, Clone, Copy, PartialEq, Eq, Structural)]
pub enum PollEventsIterator {
    Wayland(wayland::PollEventsIterator),
}

/// Blocking event retrieval on a window of the backend it names.
#[derive(Debug, Clone, Copy, PartialEq, Eq, Structural)]
pub enum WaitEventsIterator {
    Wayland(wayland::WaitEventsIterator),
}

/// Whether the optional sharing window belongs to the backend of `native`.
pub open spec fn sharing_fits(s: Option<&Window>, native: NativeWindow) -> bool {
    match (s, native) {
        (Some(Window::X(_)), NativeWindow::Wayland(_)) => false,
        (Some(Window::Wayland(_)), NativeWindow::X(_)) => false,
        _ => true,
    }
}

/// Identity of the context of the optional sharing window.
pub open spec fn window_shared_id(s: Option<&Window>) -> Option<ContextId> {
    match s {
        Some(Window::X(c)) => Some(context_id(*c)),
        Some(Window::Wayland(w)) => Some(context_id(w.context)),
        None => None,
    }
}

/// The context of window `w`.
pub open spec fn context_of(w: Window) -> Context {
    match w {
        Window::X(c) => c,
        Window::Wayland(ww) => ww.context,
    }
}

impl Window {
    /// Creates a context on `winit_window` with the backend that produced
    /// it. A sharing window must belong to the same backend.
    pub fn new(
        pf_reqs: &PixelFormatRequirements,
        opengl: &GlAttributes<&Window>,
        _pl_attribs: &PlatformSpecificWindowBuilderAttributes,
        winit_window: &NativeWindow,
        display: &Display,
    ) -> (r: Result<Window, CreationError>)
        ensures
            !sharing_fits(opengl.sharing, *winit_window) ==> r == Err::<Window, CreationError>(CreationError::NotSupported),
            sharing_fits(opengl.sharing, *winit_window) ==> match *winit_window {
                NativeWindow::X(handle) => match negotiate(*display, *pf_reqs, *opengl, window_shared_id(opengl.sharing)) {
                    Err(e) => r == Err::<Window, CreationError>(e),
                    Ok(p) => if handle == 0 {
                        r matches Err(CreationError::OsError(_))
                    } else {
                        r == Ok::<Window, CreationError>(Window::X(p.bind(Surface::Window(handle))))
                    },
                },
                NativeWindow::Wayland(info) => match info.surface {
                    None => r == Err::<Window, CreationError>(CreationError::NotSupported),
                    Some(s) => match negotiate(*display, *pf_reqs, *opengl, window_shared_id(opengl.sharing)) {
                        Err(e) => r == Err::<Window, CreationError>(e),
                        Ok(p) => if s == 0 {
                            r matches Err(CreationError::OsError(_))
                        } else {
                            r matches Ok(Window::Wayland(w)) && w.created(p.bind(Surface::Window(s)), info)
                        },
                    },
                },
            },
    {
        match winit_window {
            NativeWindow::X(handle) => {
                let sharing = match opengl.sharing {
                    Some(Window::X(c)) => Some(c),
                    Some(Window::Wayland(_)) => return Err(CreationError::NotSupported),
                    None => None,
                };
                let attrs = GlAttributes {
                    sharing,
                    version: opengl.version,
                    profile: opengl.profile,
                    debug: opengl.debug,
                    vsync: opengl.vsync,
                };
                let proto = match ContextPrototype::new(display, pf_reqs, &attrs) {
                    Ok(p) => p,
                    Err(e) => return Err(e),
                };
                match proto.finish(*handle) {
                    Ok(c) => Ok(Window::X(c)),
                    Err(e) => Err(e),
                }
            },
            NativeWindow::Wayland(_) => {
                let sharing = match opengl.sharing {
                    Some(Window::Wayland(w)) => Some(w),
                    Some(Window::X(_)) => return Err(CreationError::NotSupported),
                    None => None,
                };
                let attrs = GlAttributes {
                    sharing,
                    version: opengl.version,
                    profile: opengl.profile,
                    debug: opengl.debug,
                    vsync: opengl.vsync,
                };
                match wayland::Window::new(pf_reqs, &attrs, winit_window, display) {
                    Ok(w) => Ok(Window::Wayland(w)),
                    Err(e) => Err(e),
                }
            },
        }
    }

    /// Starts non-blocking event retrieval; only Wayland windows offer it.
    pub fn poll_events(&self) -> (r: Result<PollEventsIterator, CreationError>)
        ensures
            match *self {
                Window::Wayland(_) => r == Ok::<PollEventsIterator, CreationError>(
                    PollEventsIterator::Wayland(wayland::PollEventsIterator { dispatched: false })),
                Window::X(_) => r == Err::<PollEventsIterator, CreationError>(CreationError::NotSupported),
            },
    {
        match self {
            Window::Wayland(_) => Ok(PollEventsIterator::Wayland(wayland::PollEventsIterator::new())),
            Window::X(_) => Err(CreationError::NotSupported),
        }
    }

    /// Starts blocking event retrieval; only Wayland windows offer it.
    pub fn wait_events(&self) -> (r: Result<WaitEventsIterator, CreationError>)
        ensures
            match *self {
                Window::Wayland(_) => r == Ok::<WaitEventsIterator, CreationError>(
                    WaitEventsIterator::Wayland(wayland::WaitEventsIterator)),
                Window::X(_) => r == Err::<WaitEventsIterator, CreationError>(CreationError::NotSupported),
            },
    {
        match self {
            Window::Wayland(_) => Ok(WaitEventsIterator::Wayland(wayland::WaitEventsIterator::new())),
            Window::X(_) => Err(CreationError::NotSupported),
        }
    }

    /// Resizes the rendering surface of a Wayland window to `(x, y)` and
    /// returns the native resizes to perform.
    pub fn set_inner_size(&mut self, x: u32, y: u32) -> (r: Result<Vec<Effect>, CreationError>)
        ensures
            match *old(self) {
                Window::Wayland(w0) => {
                    &&& *final(self) matches Window::Wayland(w1) && w0.is_sized(w1, x, y)
                    &&& r matches Ok(fx) && fx@ == w0.surface_effects(x, y)
                },
                Window::X(_) => {
                    &&& r == Err::<Vec<Effect>, CreationError>(CreationError::NotSupported)
                    &&& *final(self) == *old(self)
                },
            },
    {
        match self {
            Window::Wayland(w) => Ok(w.set_inner_size(x, y)),
            Window::X(_) => Err(CreationError::NotSupported),
        }
    }

    /// Records the outcome of the native make-current call.
    pub fn make_current(&mut self, native_status: u32) -> (r: Result<(), ContextError>)
        ensures
            r == status_result(native_status),
            context_of(*final(self)).current == r is Ok,
            context_of(*final(self)).config == context_of(*old(self)).config,
            context_of(*final(self)).surface == context_of(*old(self)).surface,
    {
        match self {
            Window::X(c) => c.make_current(native_status),
            Window::Wayland(w) => w.make_current(native_status),
        }
    }

    pub fn is_current(&self) -> (r: bool)
        ensures
            r == context_of(*self).current,
    {
        match self {
            Window::X(c) => c.is_current(),
            Window::Wayland(w) => w.is_current(),
        }
    }

    /// Outcome of presenting the back buffer.
    pub fn swap_buffers(&self, native_status: u32) -> (r: Result<(), ContextError>)
        ensures
            r == status_result(native_status),
    {
        match self {
            Window::X(c) => c.swap_buffers(native_status),
            Window::Wayland(w) => w.swap_buffers(native_status),
        }
    }

    pub fn get_api(&self) -> (r: Api)
        ensures
            r == context_of(*self).api,
    {
        match self {
            Window::X(c) => c.get_api(),
            Window::Wayland(w) => w.get_api(),
        }
    }

    pub fn get_pixel_format(&self) -> (r: PixelFormat)
        ensures
            r == context_of(*self).config.format,
    {
        match self {
            Window::X(c) => c.get_pixel_format(),
            Window::Wayland(w) => w.get_pixel_format(),
        }
    }
}

impl PollEventsIterator {
    /// One step of polling `window` on the batch `native`; fails with
    /// `NotSupported` on a window of another backend.
    pub fn next(&mut self, window: &mut Window, native: &Vec<ShellEvent>) -> (r: Result<(Step, Vec<Effect>), CreationError>)
        ensures
            match (*old(self), *old(window)) {
                (PollEventsIterator::Wayland(it), Window::Wayland(w0)) => {
                    &&& *final(window) matches Window::Wayland(w1)
                        && w0.next_event_post(w1, native@, w0.event_of(native@), r->Ok_0.1@)
                    &&& r matches Ok((step, _)) && step == match w0.event_of(native@) {
                        Some(e) => Step::Emitted(e),
                        None => if it.dispatched { Step::NoEvent } else { Step::Dispatch },
                    }
                    &&& *final(self) == PollEventsIterator::Wayland(wayland::PollEventsIterator { dispatched: step_is_dispatch(r) })
                },
                _ => {
                    &&& r == Err::<(Step, Vec<Effect>), CreationError>(CreationError::NotSupported)
                    &&& *final(window) == *old(window)
                    &&& *final(self) == *old(self)
                },
            },
    {
        match (self, window) {
            (PollEventsIterator::Wayland(it), Window::Wayland(w)) => Ok(it.next(w, native)),
            _ => Err(CreationError::NotSupported),
        }
    }
}

impl WaitEventsIterator {
    /// One step of waiting on `window` with the batch `native`; fails with
    /// `NotSupported` on a window of another backend.
    pub fn next(&mut self, window: &mut Window, native: &Vec<ShellEvent>) -> (r: Result<(Step, Vec<Effect>), CreationError>)
        ensures
            match *old(window) {
                Window::Wayland(w0) => {
                    &&& *final(window) matches Window::Wayland(w1)
                        && w0.next_event_post(w1, native@, w0.event_of(native@), r->Ok_0.1@)
                    &&& r matches Ok((step, _)) && step == match w0.event_of(native@) {
                        Some(e) => Step::Emitted(e),
                        None => Step::Block,
                    }
                },
                Window::X(_) => {
                    &&& r == Err::<(Step, Vec<Effect>), CreationError>(CreationError::NotSupported)
                    &&& *final(window) == *old(window)
                },
            },
    {
        match (self, window) {
            (WaitEventsIterator::Wayland(it), Window::Wayland(w)) => Ok(it.next(w, native)),
            _ => Err(CreationError::NotSupported),
        }
    }
}

/// Whether a polling step asked for a dispatch.
pub open spec fn step_is_dispatch(r: Result<(Step, Vec<Effect>), CreationError>) -> bool {
    r matches Ok((step, _)) && step == Step::Dispatch
}

} // verus!
