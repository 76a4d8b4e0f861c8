use glcontext::egl::{Display, DisplayKind, NativeConfig, Surface};
use glcontext::platform::{NativeWindow, PlatformSpecificWindowBuilderAttributes, PollEventsIterator as PlatformPoll, Window as PlatformWindow};
use glcontext::types::{CreationError, Event, GlAttributes, GlRequest, PixelFormat, PixelFormatRequirements};
use glcontext::wayland::{DecorationInsets, Effect, PollEventsIterator, ShellEvent, ShellKind, Step, WaitEventsIterator, WaylandSurfaceInfo, Window};

fn reqs() -> PixelFormatRequirements {
    PixelFormatRequirements {
        hardware_accelerated: None,
        color_bits: None,
        float_color_buffer: false,
        alpha_bits: None,
        depth_bits: None,
        stencil_bits: None,
        double_buffer: None,
        multisampling: None,
        stereoscopy: false,
        srgb: false,
    }
}

fn attrs<S>(sharing: Option<S>) -> GlAttributes<S> {
    GlAttributes { sharing, version: GlRequest::Latest, profile: None, debug: false, vsync: true }
}

fn wayland_display() -> Display {
    let format = PixelFormat {
        hardware_accelerated: true,
        color_bits: 24,
        alpha_bits: 8,
        depth_bits: 24,
        stencil_bits: 8,
        stereoscopy: false,
        double_buffer: true,
        multisampling: None,
        srgb: false,
    };
    Display { id: 1, kind: DisplayKind::Wayland, configs: vec![NativeConfig { id: 4, format, float_color_buffer: false }] }
}

fn info(shell: ShellKind, callback: bool) -> WaylandSurfaceInfo {
    WaylandSurfaceInfo {
        surface: Some(42),
        inner_size: (320, 200),
        shell,
        insets: DecorationInsets { horizontal: 16, vertical: 40 },
        resize_callback: callback,
    }
}

fn window(shell: ShellKind, callback: bool) -> Window {
    Window::new(&reqs(), &attrs(None), &NativeWindow::Wayland(info(shell, callback)), &wayland_display()).unwrap()
}

#[test]
fn consecutive_resizes_yield_last_only() {
    let mut w = window(ShellKind::Plain, false);
    let native = vec![ShellEvent::Configure(800, 600), ShellEvent::Configure(640, 480)];
    let (ev, fx) = w.next_event(&native);
    assert_eq!(ev, Some(Event::Resized(640, 480)));
    assert_eq!(fx, vec![Effect::ResizeSurface(640, 480)]);
    assert_eq!(w.surface_size, (640, 480));
    let (ev2, fx2) = w.next_event(&Vec::new());
    assert_eq!(ev2, None);
    assert!(fx2.is_empty());
}

#[test]
fn decorated_resize_subtracts_insets() {
    let mut w = window(ShellKind::Decorated, true);
    let (ev, fx) = w.next_event(&vec![ShellEvent::Configure(816, 640)]);
    assert_eq!(ev, Some(Event::Resized(800, 600)));
    assert_eq!(
        fx,
        vec![Effect::ResizeDecoration(800, 600), Effect::ResizeSurface(800, 600), Effect::ResizeCallback(800, 600)]
    );
    assert_eq!(w.surface_size, (800, 600));
    assert_eq!(w.inner_size, (800, 600));
    assert_eq!(w.decoration_size, (800, 600));
}

#[test]
fn decorated_resize_smaller_than_insets_clamps() {
    let mut w = window(ShellKind::Decorated, false);
    let (ev, _) = w.next_event(&vec![ShellEvent::Configure(10, -5)]);
    assert_eq!(ev, Some(Event::Resized(0, 0)));
}

#[test]
fn pings_answered_and_others_ignored() {
    let mut w = window(ShellKind::Plain, false);
    let native = vec![ShellEvent::Ping(3), ShellEvent::Other, ShellEvent::Ping(9)];
    let (ev, fx) = w.next_event(&native);
    assert_eq!(ev, None);
    assert_eq!(fx, vec![Effect::Pong(3), Effect::Pong(9)]);
    assert_eq!(w.surface_size, (320, 200));
}

#[test]
fn decorated_shell_answers_its_own_pings() {
    let mut w = window(ShellKind::Decorated, false);
    let (ev, fx) = w.next_event(&vec![ShellEvent::Ping(3)]);
    assert_eq!(ev, None);
    assert!(fx.is_empty());
}

#[test]
fn resize_preferred_over_queue_then_fifo() {
    let mut w = window(ShellKind::Plain, false);
    w.push_event(Event::Resized(1, 1));
    w.push_event(Event::Resized(2, 2));
    let (ev, _) = w.next_event(&vec![ShellEvent::Configure(50, 60)]);
    assert_eq!(ev, Some(Event::Resized(50, 60)));
    assert_eq!(w.next_event(&Vec::new()).0, Some(Event::Resized(1, 1)));
    assert_eq!(w.next_event(&Vec::new()).0, Some(Event::Resized(2, 2)));
    assert_eq!(w.next_event(&Vec::new()).0, None);
}

#[test]
fn set_inner_size_twice_is_idempotent() {
    let mut w = window(ShellKind::Decorated, false);
    let fx1 = w.set_inner_size(400, 300);
    assert_eq!(w.surface_size, (400, 300));
    let fx2 = w.set_inner_size(400, 300);
    assert_eq!(w.surface_size, (400, 300));
    assert_eq!(w.decoration_size, (400, 300));
    assert_eq!(fx1, fx2);
    assert_eq!(fx1, vec![Effect::ResizeDecoration(400, 300), Effect::ResizeSurface(400, 300)]);
    assert_eq!(w.inner_size, (320, 200));
}

#[test]
fn poll_on_empty_queue_returns_no_event() {
    let mut w = window(ShellKind::Plain, false);
    let mut it = w.poll_events();
    let (s1, _) = it.next(&mut w, &Vec::new());
    assert_eq!(s1, Step::Dispatch);
    let (s2, _) = it.next(&mut w, &Vec::new());
    assert_eq!(s2, Step::NoEvent);
    let (s3, _) = it.next(&mut w, &vec![ShellEvent::Configure(10, 10)]);
    assert_eq!(s3, Step::Emitted(Event::Resized(10, 10)));
    assert!(!it.dispatched);
}

#[test]
fn wait_blocks_instead_of_returning_nothing() {
    let mut w = window(ShellKind::Plain, false);
    let mut it = w.wait_events();
    assert_eq!(it, WaitEventsIterator::new());
    let (s1, _) = it.next(&mut w, &Vec::new());
    assert_eq!(s1, Step::Block);
    assert_eq!(it.after_read(true), Step::Dispatch);
    assert_eq!(it.after_read(false), Step::Abort);
    let (s2, _) = it.next(&mut w, &vec![ShellEvent::Configure(64, 32)]);
    assert_eq!(s2, Step::Emitted(Event::Resized(64, 32)));
}

#[test]
fn wayland_new_rejects_x_window_and_missing_shell() {
    let r = Window::new(&reqs(), &attrs(None), &NativeWindow::X(5), &wayland_display());
    assert!(matches!(r, Err(CreationError::NotSupported)));
    let mut i = info(ShellKind::Plain, false);
    i.surface = None;
    let r = Window::new(&reqs(), &attrs(None), &NativeWindow::Wayland(i), &wayland_display());
    assert!(matches!(r, Err(CreationError::NotSupported)));
}

#[test]
fn wayland_new_binds_surface() {
    let w = window(ShellKind::Plain, false);
    assert_eq!(w.context.surface, Surface::Window(42));
    assert_eq!(w.surface_size, (320, 200));
    assert!(w.queue.is_empty());
}

#[test]
fn dispatcher_forwards_to_wayland() {
    let native = NativeWindow::Wayland(info(ShellKind::Plain, false));
    let mut w = PlatformWindow::new(&reqs(), &attrs(None), &PlatformSpecificWindowBuilderAttributes, &native, &wayland_display()).unwrap();
    let mut it = w.poll_events().unwrap();
    assert_eq!(it, PlatformPoll::Wayland(PollEventsIterator { dispatched: false }));
    let (step, _) = it.next(&mut w, &vec![ShellEvent::Configure(30, 20)]).unwrap();
    assert_eq!(step, Step::Emitted(Event::Resized(30, 20)));
    assert_eq!(w.set_inner_size(5, 6).unwrap(), vec![Effect::ResizeSurface(5, 6)]);
    assert!(w.wait_events().is_ok());
}

#[test]
fn dispatcher_x_window_has_no_event_retrieval() {
    let mut w = PlatformWindow::new(&reqs(), &attrs(None), &PlatformSpecificWindowBuilderAttributes, &NativeWindow::X(9), &wayland_display()).unwrap();
    assert_eq!(w.poll_events(), Err(CreationError::NotSupported));
    assert_eq!(w.wait_events(), Err(CreationError::NotSupported));
    assert_eq!(w.set_inner_size(1, 1), Err(CreationError::NotSupported));
    assert!(!w.is_current());
}

#[test]
fn dispatcher_refuses_sharing_across_backends() {
    let x = PlatformWindow::new(&reqs(), &attrs(None), &PlatformSpecificWindowBuilderAttributes, &NativeWindow::X(9), &wayland_display()).unwrap();
    let native = NativeWindow::Wayland(info(ShellKind::Plain, false));
    let r = PlatformWindow::new(&reqs(), &attrs(Some(&x)), &PlatformSpecificWindowBuilderAttributes, &native, &wayland_display());
    assert!(matches!(r, Err(CreationError::NotSupported)));
}
