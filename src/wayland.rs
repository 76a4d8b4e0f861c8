//! Wayland backend: binds a context to a shell surface and translates the
//! compositor's shell-surface events into portable events, performing the
//! resize bookkeeping of the rendering surface on the way.
use vstd::prelude::*;
use crate::egl::{negotiate, context_id, status_result, ContextPrototype, Context, Display, Surface};
use crate::platform::NativeWindow;
use crate::types::{Api, ContextError, CreationError, Event, GlAttributes, PixelFormat, PixelFormatRequirements};

verus! {

/// Whether the window's shell surface carries decorations drawn by the
/// backend itself.
#[derive(Debug, Clone, Copy, PartialEq, Eq, Structural)]
pub enum ShellKind {
    Decorated,
    Plain,
}

/// Space taken by decorations, subtracted from a decorated window's
/// reported size to obtain its client area.
#[derive(Debug, Clone, Copy, PartialEq, Eq, Structural)]
pub struct DecorationInsets {
    pub horizontal: u32,
    pub vertical: u32,
}

/// What the backend reports of a window when a context is created on it.
#[derive(Debug, Clone, Copy, PartialEq, Eq)]
pub struct WaylandSurfaceInfo {
    /// Handle of a freshly created surface; `None` when the compositor
    /// offers no shell protocol to create one with.
    pub surface: Option<u64>,
    pub inner_size: (u32, u32),
    pub shell: ShellKind,
    pub insets: DecorationInsets,
    /// Whether a resize callback is registered on the window.
    pub resize_callback: bool,
}

/// A shell-surface event decoded from the compositor connection.
#[derive(Debug, Clone, Copy, PartialEq, Eq, Structural)]
pub enum ShellEvent {
    /// The compositor checks that the client is alive.
    Ping(u32),
    /// The compositor proposes a new size for the window.
    Configure(i32, i32),
    /// Any other event; ignored.
    Other,
}

/// A side effect on native objects that the caller performs, in order.
#[derive(Debug, Clone, Copy, PartialEq, Eq, Structural)]
pub enum Effect {
    /// Answer a ping with this serial.
    Pong(u32),
    /// Resize the decoration frame around this client area.
    ResizeDecoration(u32, u32),
    /// Resize the rendering surface.
    ResizeSurface(u32, u32),
    /// Invoke the window's resize callback.
    ResizeCallback(u32, u32),
}

/// A context bound to a Wayland shell surface, with the window's
/// per-window event state.
#[derive(Debug)]
pub struct Window {
    pub context: Context,
    pub shell: ShellKind,
    pub insets: DecorationInsets,
    pub resize_callback: bool,
    /// Client-area size last settled.
    pub inner_size: (u32, u32),
    /// Size of the rendering surface.
    pub surface_size: (u32, u32),
    /// Client area the decoration frame was last sized for.
    pub decoration_size: (u32, u32),
    /// Translated events waiting to be handed out, oldest first.
    pub queue: Vec<Event>,
}

/// One step of event retrieval.
#[derive(Debug, Clone, Copy, PartialEq, Eq, Structural)]
pub enum Step {
    /// An event is handed out.
    Emitted(Event),
    /// No event is available now.
    NoEvent,
    /// Dispatch the native queue without blocking, then ask again.
    Dispatch,
    /// Flush outgoing messages, block until native events are read, then
    /// report whether the connection held.
    Block,
    /// The compositor connection is lost: give up waiting.
    Abort,
}

/// Length left of `raw` once `inset` is taken off, never below zero.
pub open spec fn client_len(raw: i32, inset: u32) -> u32 {
    if raw as int <= inset as int {
        0
    } else {
        (raw as int - inset as int) as u32
    }
}

/// Size of the last `Configure` event of `s`.
pub open spec fn last_configure(s: Seq<ShellEvent>) -> Option<(i32, i32)>
    decreases s.len(),
{
    if s.len() == 0 {
        None
    } else {
        match s.last() {
            ShellEvent::Configure(w, h) => Some((w, h)),
            _ => last_configure(s.drop_last()),
        }
    }
}

/// The `Pong` replies to the pings of `s`, in order.
pub open spec fn pong_effects(s: Seq<ShellEvent>) -> Seq<Effect>
    decreases s.len(),
{
    if s.len() == 0 {
        seq![]
    } else {
        let rest = pong_effects(s.drop_last());
        match s.last() {
            ShellEvent::Ping(u) => rest.push(Effect::Pong(u)),
            _ => rest,
        }
    }
}

impl Window {
    /// Client area of a window that the compositor sized `(w, h)`.
    pub open spec fn client_size(self, w: i32, h: i32) -> (u32, u32) {
        if self.shell == ShellKind::Decorated {
            (client_len(w, self.insets.horizontal), client_len(h, self.insets.vertical))
        } else {
            (client_len(w, 0), client_len(h, 0))
        }
    }

    /// Size settled by the events of `native`, if any resizes the window.
    pub open spec fn settled(self, native: Seq<ShellEvent>) -> Option<(u32, u32)> {
        match last_configure(native) {
            Some((w, h)) => Some(self.client_size(w, h)),
            None => None,
        }
    }

    /// Replies owed to the pings of `native`; a decorated shell answers
    /// them itself.
    pub open spec fn ping_replies(self, native: Seq<ShellEvent>) -> Seq<Effect> {
        if self.shell == ShellKind::Plain {
            pong_effects(native)
        } else {
            seq![]
        }
    }

    /// Native resizes that bring the decoration frame and the rendering
    /// surface to `(w, h)`.
    pub open spec fn surface_effects(self, w: u32, h: u32) -> Seq<Effect> {
        if self.shell == ShellKind::Decorated {
            seq![Effect::ResizeDecoration(w, h), Effect::ResizeSurface(w, h)]
        } else {
            seq![Effect::ResizeSurface(w, h)]
        }
    }

    /// Every side effect of a settled resize to `(w, h)`.
    pub open spec fn resize_effects(self, w: u32, h: u32) -> Seq<Effect> {
        if self.resize_callback {
            self.surface_effects(w, h).push(Effect::ResizeCallback(w, h))
        } else {
            self.surface_effects(w, h)
        }
    }

    /// Decoration size once the surface is resized to `(w, h)`.
    pub open spec fn decoration_after(self, w: u32, h: u32) -> (u32, u32) {
        if self.shell == ShellKind::Decorated {
            (w, h)
        } else {
            self.decoration_size
        }
    }

    /// The event that translating the batch `native` hands out.
    pub open spec fn event_of(self, native: Seq<ShellEvent>) -> Option<Event> {
        match self.settled(native) {
            Some((w, h)) => Some(Event::Resized(w, h)),
            None => if self.queue@.len() > 0 { Some(self.queue@[0]) } else { None },
        }
    }

    /// `post` differs from `self` at most in its sizes and queue.
    pub open spec fn same_setup(self, post: Window) -> bool {
        &&& post.context == self.context
        &&& post.shell == self.shell
        &&& post.insets == self.insets
        &&& post.resize_callback == self.resize_callback
    }

    /// `post` is `self` with its surface (and decoration) resized to `(w, h)`.
    pub open spec fn is_sized(self, post: Window, w: u32, h: u32) -> bool {
        &&& self.same_setup(post)
        &&& post.surface_size == (w, h)
        &&& post.decoration_size == self.decoration_after(w, h)
        &&& post.inner_size == self.inner_size
        &&& post.queue@ == self.queue@
    }

    /// What one translation of the batch `native` hands out (`ev`), does
    /// to the window (`self` into `post`) and asks of the native side (`fx`).
    pub open spec fn next_event_post(
        self,
        post: Window,
        native: Seq<ShellEvent>,
        ev: Option<Event>,
        fx: Seq<Effect>,
    ) -> bool {
        &&& self.same_setup(post)
        &&& match self.settled(native) {
            Some((w, h)) => {
                &&& ev == Some(Event::Resized(w, h))
                &&& post.inner_size == (w, h)
                &&& post.surface_size == (w, h)
                &&& post.decoration_size == self.decoration_after(w, h)
                &&& post.queue@ == self.queue@
                &&& fx == self.ping_replies(native) + self.resize_effects(w, h)
            },
            None => {
                &&& ev == (if self.queue@.len() > 0 { Some(self.queue@[0]) } else { None::<Event> })
                &&& post.queue@ == (if self.queue@.len() > 0 { self.queue@.drop_first() } else { self.queue@ })
                &&& post.inner_size == self.inner_size
                &&& post.surface_size == self.surface_size
                &&& post.decoration_size == self.decoration_size
                &&& fx == self.ping_replies(native)
            },
        }
    }
}

fn client_length(raw: i32, inset: u32) -> (r: u32)
    ensures
        r == client_len(raw, inset),
{
    if raw as i64 <= inset as i64 {
        0
    } else {
        (raw as i64 - inset as i64) as u32
    }
}

impl Window {
    /// Creates a context on the Wayland window `winit_window`, bound to a
    /// surface of the window's inner size. Fails with `NotSupported` when
    /// the window is not a Wayland one or no shell surface can be created.
    pub fn new(
        pf_reqs: &PixelFormatRequirements,
        opengl: &GlAttributes<&Window>,
        winit_window: &NativeWindow,
        display: &Display,
    ) -> (r: Result<Window, CreationError>)
        ensures
            match *winit_window {
                NativeWindow::X(_) => r == Err::<Window, CreationError>(CreationError::NotSupported),
                NativeWindow::Wayland(info) => match info.surface {
                    None => r == Err::<Window, CreationError>(CreationError::NotSupported),
                    Some(s) => match negotiate(*display, *pf_reqs, *opengl, window_shared_id(opengl.sharing)) {
                        Err(e) => r == Err::<Window, CreationError>(e),
                        Ok(p) => if s == 0 {
                            r matches Err(CreationError::OsError(_))
                        } else {
                            r matches Ok(w) && w.created(p.bind(Surface::Window(s)), info)
                        },
                    },
                },
            },
    {
        let info = match winit_window {
            NativeWindow::X(_) => return Err(CreationError::NotSupported),
            NativeWindow::Wayland(info) => *info,
        };
        let surface = match info.surface {
            Some(s) => s,
            None => return Err(CreationError::NotSupported),
        };
        let sharing = match opengl.sharing {
            Some(w) => Some(&w.context),
            None => None,
        };
        let attrs = GlAttributes {
            sharing,
            version: opengl.version,
            profile: opengl.profile,
            debug: opengl.debug,
            vsync: opengl.vsync,
        };
        let proto = match ContextPrototype::new(display, pf_reqs, &attrs) {
            Ok(p) => p,
            Err(e) => return Err(e),
        };
        let context = match proto.finish(surface) {
            Ok(c) => c,
            Err(e) => return Err(e),
        };
        Ok(Window {
            context,
            shell: info.shell,
            insets: info.insets,
            resize_callback: info.resize_callback,
            inner_size: info.inner_size,
            surface_size: info.inner_size,
            decoration_size: info.inner_size,
            queue: Vec::new(),
        })
    }

    /// A window fresh from `new`, with context `c`, on the window `info`
    /// describes.
    pub open spec fn created(self, c: Context, info: WaylandSurfaceInfo) -> bool {
        &&& self.context == c
        &&& self.shell == info.shell
        &&& self.insets == info.insets
        &&& self.resize_callback == info.resize_callback
        &&& self.inner_size == info.inner_size
        &&& self.surface_size == info.inner_size
        &&& self.decoration_size == info.inner_size
        &&& self.queue@.len() == 0
    }

    /// Appends an already translated event to the window's queue.
    pub fn push_event(&mut self, event: Event)
        ensures
            old(self).same_setup(*final(self)),
            final(self).queue@ == old(self).queue@.push(event),
            final(self).inner_size == old(self).inner_size,
            final(self).surface_size == old(self).surface_size,
            final(self).decoration_size == old(self).decoration_size,
    {
        self.queue.push(event);
    }

    fn resize_surface(&mut self, w: u32, h: u32, fx: &mut Vec<Effect>)
        ensures
            old(self).is_sized(*final(self), w, h),
            final(fx)@ == old(fx)@ + old(self).surface_effects(w, h),
    {
        if self.shell == ShellKind::Decorated {
            fx.push(Effect::ResizeDecoration(w, h));
            self.decoration_size = (w, h);
        }
        fx.push(Effect::ResizeSurface(w, h));
        self.surface_size = (w, h);
        proof {
            if self.shell == ShellKind::Decorated {
                assert(final(fx)@ =~= old(fx)@ + old(self).surface_effects(w, h));
            } else {
                assert(final(fx)@ =~= old(fx)@ + old(self).surface_effects(w, h));
            }
        }
    }

    /// Translates the batch `native` of shell-surface events. Pings of a
    /// plain shell are answered. When the batch resizes the window, only
    /// its last size counts: the surface is resized to the client area and
    /// `Resized` is handed out ahead of the queue. Otherwise the oldest
    /// queued event, if any, is handed out. The side effects to perform
    /// come back beside the event.
    pub fn next_event(&mut self, native: &Vec<ShellEvent>) -> (r: (Option<Event>, Vec<Effect>))
        ensures
            old(self).next_event_post(*final(self), native@, r.0, r.1@),
    {
        let plain = self.shell == ShellKind::Plain;
        let mut newsize: Option<(i32, i32)> = None;
        let mut fx: Vec<Effect> = Vec::new();
        let mut i: usize = 0;
        while i < native.len()
            invariant
                i <= native@.len(),
                *self == *old(self),
                plain == (self.shell == ShellKind::Plain),
                newsize == last_configure(native@.subrange(0, i as int)),
                fx@ == (if plain { pong_effects(native@.subrange(0, i as int)) } else { seq![] }),
            decreases native@.len() - i,
        {
            proof {
                assert(native@.subrange(0, i + 1).drop_last() =~= native@.subrange(0, i as int));
            }
            match native[i] {
                ShellEvent::Ping(u) => {
                    if plain {
                        fx.push(Effect::Pong(u));
                    }
                },
                ShellEvent::Configure(w, h) => {
                    newsize = Some((w, h));
                },
                ShellEvent::Other => {},
            }
            i = i + 1;
        }
        proof {
            assert(native@.subrange(0, native@.len() as int) =~= native@);
        }
        match newsize {
            Some((w, h)) => {
                let (cw, ch) = if plain {
                    (client_length(w, 0), client_length(h, 0))
                } else {
                    (client_length(w, self.insets.horizontal), client_length(h, self.insets.vertical))
                };
                self.inner_size = (cw, ch);
                self.resize_surface(cw, ch, &mut fx);
                if self.resize_callback {
                    fx.push(Effect::ResizeCallback(cw, ch));
                }
                proof {
                    assert(fx@ =~= old(self).ping_replies(native@) + old(self).resize_effects(cw, ch));
                }
                (Some(Event::Resized(cw, ch)), fx)
            },
            None => {
                if self.queue.len() > 0 {
                    let e = self.queue.remove(0);
                    proof {
                        assert(self.queue@ =~= old(self).queue@.drop_first());
                    }
                    (Some(e), fx)
                } else {
                    (None, fx)
                }
            },
        }
    }

    /// Starts non-blocking retrieval of this window's events.
    pub fn poll_events(&self) -> (r: PollEventsIterator)
        ensures
            !r.dispatched,
    {
        PollEventsIterator::new()
    }

    /// Starts blocking retrieval of this window's events.
    pub fn wait_events(&self) -> (r: WaitEventsIterator) {
        WaitEventsIterator::new()
    }

    /// Resizes the rendering surface, and the decoration frame of a
    /// decorated shell, to `(x, y)`. Returns the native resizes to perform.
    pub fn set_inner_size(&mut self, x: u32, y: u32) -> (fx: Vec<Effect>)
        ensures
            old(self).is_sized(*final(self), x, y),
            fx@ == old(self).surface_effects(x, y),
    {
        let mut fx: Vec<Effect> = Vec::new();
        self.resize_surface(x, y, &mut fx);
        proof {
            assert(fx@ =~= old(self).surface_effects(x, y));
        }
        fx
    }

    /// Records the outcome of the native make-current call.
    pub fn make_current(&mut self, native_status: u32) -> (r: Result<(), ContextError>)
        ensures
            r == status_result(native_status),
            final(self).context.current == r is Ok,
            final(self).context.surface == old(self).context.surface,
            final(self).context.config == old(self).context.config,
            final(self).surface_size == old(self).surface_size,
    {
        self.context.make_current(native_status)
    }

    pub fn is_current(&self) -> (r: bool)
        ensures
            r == self.context.current,
    {
        self.context.is_current()
    }

    /// Outcome of presenting the back buffer.
    pub fn swap_buffers(&self, native_status: u32) -> (r: Result<(), ContextError>)
        ensures
            r == status_result(native_status),
    {
        self.context.swap_buffers(native_status)
    }

    pub fn get_api(&self) -> (r: Api)
        ensures
            r == self.context.api,
    {
        self.context.get_api()
    }

    pub fn get_pixel_format(&self) -> (r: PixelFormat)
        ensures
            r == self.context.config.format,
    {
        self.context.get_pixel_format()
    }
}

/// Identity of the context of the optional sharing window.
pub open spec fn window_shared_id(s: Option<&Window>) -> Option<crate::egl::ContextId> {
    match s {
        Some(w) => Some(context_id(w.context)),
        None => None,
    }
}

/// Non-blocking retrieval: translate what is queued, dispatch the native
/// queue once if that yields nothing, and report "no event" otherwise.
#[derive(Debug, Clone, Copy, PartialEq, Eq, Structural)]
pub struct PollEventsIterator {
    /// Whether the native queue was dispatched since the last answer.
    pub dispatched: bool,
}

/// Blocking retrieval: translate what is queued and otherwise block on
/// the compositor connection until events arrive, forever if need be.
#[derive(Debug, Clone, Copy, PartialEq, Eq, Structural)]
pub struct WaitEventsIterator;

impl PollEventsIterator {
    pub fn new() -> (r: PollEventsIterator)
        ensures
            !r.dispatched,
    {
        PollEventsIterator { dispatched: false }
    }

    /// One step of polling `window` on the batch `native` of events read
    /// since the previous step. Never blocks: the answer is an event, "no
    /// event", or a single non-blocking dispatch before the final answer.
    pub fn next(&mut self, window: &mut Window, native: &Vec<ShellEvent>) -> (r: (Step, Vec<Effect>))
        ensures
            old(window).next_event_post(*final(window), native@, old(window).event_of(native@), r.1@),
            r.0 == match old(window).event_of(native@) {
                Some(e) => Step::Emitted(e),
                None => if old(self).dispatched { Step::NoEvent } else { Step::Dispatch },
            },
            final(self).dispatched == (r.0 == Step::Dispatch),
    {
        let (ev, fx) = window.next_event(native);
        let step = match ev {
            Some(e) => Step::Emitted(e),
            None => if self.dispatched { Step::NoEvent } else { Step::Dispatch },
        };
        self.dispatched = step == Step::Dispatch;
        (step, fx)
    }
}

impl WaitEventsIterator {
    pub fn new() -> (r: WaitEventsIterator) {
        WaitEventsIterator
    }

    /// One step of waiting on `window` with the batch `native` of events
    /// read since the previous step: an event, or an order to block.
    pub fn next(&mut self, window: &mut Window, native: &Vec<ShellEvent>) -> (r: (Step, Vec<Effect>))
        ensures
            old(window).next_event_post(*final(window), native@, old(window).event_of(native@), r.1@),
            r.0 == match old(window).event_of(native@) {
                Some(e) => Step::Emitted(e),
                None => Step::Block,
            },
    {
        let (ev, fx) = window.next_event(native);
        let step = match ev {
            Some(e) => Step::Emitted(e),
            None => Step::Block,
        };
        (step, fx)
    }

    /// Step after blocking on the connection: dispatch what was read, or
    /// abort when the connection to the compositor is lost.
    pub fn after_read(&self, connection_ok: bool) -> (r: Step)
        ensures
            r == (if connection_ok { Step::Dispatch } else { Step::Abort }),
    {
        if connection_ok {
            Step::Dispatch
        } else {
            Step::Abort
        }
    }
}

/// Polling never blocks nor aborts, and after one dispatch it answers for
/// good: with an event or with "no event".
pub proof fn lemma_poll_never_blocks(pre: PollEventsIterator, step: Step, pre_w: Window, post_w: Window, native: Seq<ShellEvent>, fx: Seq<Effect>, ev: Option<Event>)
    requires
        pre_w.next_event_post(post_w, native, ev, fx),
        step == match ev {
            Some(e) => Step::Emitted(e),
            None => if pre.dispatched { Step::NoEvent } else { Step::Dispatch },
        },
    ensures
        step != Step::Block,
        step != Step::Abort,
        pre.dispatched ==> (step is Emitted || step == Step::NoEvent),
        (pre.dispatched && native.len() == 0 && pre_w.queue@.len() == 0) ==> step == Step::NoEvent,
{
}

/// Waiting never answers "no event": each step hands out an event or
/// blocks, and blocking ends in a dispatch or an abort.
pub proof fn lemma_wait_never_empty(step: Step, pre_w: Window, post_w: Window, native: Seq<ShellEvent>, fx: Seq<Effect>, ev: Option<Event>, connection_ok: bool, after: Step)
    requires
        pre_w.next_event_post(post_w, native, ev, fx),
        step == match ev {
            Some(e) => Step::Emitted(e),
            None => Step::Block,
        },
        after == (if connection_ok { Step::Dispatch } else { Step::Abort }),
    ensures
        step != Step::NoEvent,
        after != Step::NoEvent,
        ev.is_none() ==> step == Step::Block,
{
}

/// Resizing to the same size twice in a row leaves the surface at that
/// size after either call; the second changes nothing further.
pub proof fn lemma_resize_idempotent(w0: Window, w1: Window, w2: Window, x: u32, y: u32)
    requires
        w0.is_sized(w1, x, y),
        w1.is_sized(w2, x, y),
    ensures
        w1.surface_size == (x, y),
        w2.surface_size == (x, y),
        w1.same_setup(w2),
        w2.decoration_size == w1.decoration_size,
        w2.inner_size == w1.inner_size,
        w2.queue@ == w1.queue@,
        w1.surface_effects(x, y) == w0.surface_effects(x, y),
{
}

/// A batch of native events that resizes the window yields exactly one
/// `Resized`, for the batch's last size less the decoration insets, and
/// the surface then has that size. The next translation, of an empty
/// batch, hands out no resize again but the oldest queued event.
pub proof fn lemma_one_resize_per_batch(
    w0: Window,
    w1: Window,
    w2: Window,
    native: Seq<ShellEvent>,
    rw: i32,
    rh: i32,
    ev1: Option<Event>,
    fx1: Seq<Effect>,
    ev2: Option<Event>,
    fx2: Seq<Effect>,
)
    requires
        last_configure(native) == Some((rw, rh)),
        w0.next_event_post(w1, native, ev1, fx1),
        w1.next_event_post(w2, seq![], ev2, fx2),
    ensures
        ev1 == Some(Event::Resized(w0.client_size(rw, rh).0, w0.client_size(rw, rh).1)),
        w1.surface_size == w0.client_size(rw, rh),
        w1.inner_size == w0.client_size(rw, rh),
        w2.surface_size == w1.surface_size,
        ev2 == (if w0.queue@.len() > 0 { Some(w0.queue@[0]) } else { None::<Event> }),
{
    assert(last_configure(seq![]) == None::<(i32, i32)>);
}

} // verus!
