use glcontext::android::{HeadlessContext, PlatformSpecificHeadlessBuilderAttributes, PlatformSpecificWindowBuilderAttributes, Window as AndroidWindow, WindowProxy};
use glcontext::egl::{check_status, choose_config, config_satisfies, select_api, ContextPrototype, Display, DisplayKind, NativeConfig, Surface, STATUS_CONTEXT_LOST, STATUS_SUCCESS};
use glcontext::types::{Api, ContextError, CreationError, GlAttributes, GlProfile, GlRequest, PixelFormat, PixelFormatRequirements};

fn format(double_buffer: bool) -> PixelFormat {
    PixelFormat {
        hardware_accelerated: true,
        color_bits: 24,
        alpha_bits: 8,
        depth_bits: 24,
        stencil_bits: 8,
        stereoscopy: false,
        double_buffer,
        multisampling: None,
        srgb: false,
    }
}

fn no_reqs() -> PixelFormatRequirements {
    PixelFormatRequirements {
        hardware_accelerated: None,
        color_bits: None,
        float_color_buffer: false,
        alpha_bits: None,
        depth_bits: None,
        stencil_bits: None,
        double_buffer: None,
        multisampling: None,
        stereoscopy: false,
        srgb: false,
    }
}

fn double_buffered() -> PixelFormatRequirements {
    PixelFormatRequirements { double_buffer: Some(true), ..no_reqs() }
}

fn attrs<S>(sharing: Option<S>) -> GlAttributes<S> {
    GlAttributes { sharing, version: GlRequest::Latest, profile: None, debug: false, vsync: false }
}

fn display(id: u64, kind: DisplayKind, configs: Vec<NativeConfig>) -> Display {
    Display { id, kind, configs }
}

fn single_a() -> NativeConfig {
    NativeConfig { id: 1, format: format(false), float_color_buffer: false }
}

fn double_b() -> NativeConfig {
    NativeConfig { id: 2, format: format(true), float_color_buffer: false }
}

#[test]
fn double_buffer_selects_b() {
    let cs = vec![single_a(), double_b()];
    assert_eq!(choose_config(&cs, &double_buffered()), Ok(1));
    let d = display(7, DisplayKind::Wayland, cs);
    let p = ContextPrototype::new(&d, &double_buffered(), &attrs(None)).unwrap();
    assert_eq!(p.config.id, 2);
    assert!(p.config.format.double_buffer);
}

#[test]
fn double_buffer_fails_with_only_single() {
    let cs = vec![single_a()];
    assert_eq!(choose_config(&cs, &double_buffered()), Err(CreationError::NoAvailablePixelFormat));
    let d = display(7, DisplayKind::Wayland, cs);
    let r = ContextPrototype::new(&d, &double_buffered(), &attrs(None));
    assert_eq!(r, Err(CreationError::NoAvailablePixelFormat));
}

#[test]
fn first_match_in_enumeration_order() {
    let c3 = NativeConfig { id: 3, format: format(true), float_color_buffer: true };
    let cs = vec![single_a(), double_b(), c3];
    assert_eq!(choose_config(&cs, &no_reqs()), Ok(0));
    assert_eq!(choose_config(&cs, &double_buffered()), Ok(1));
    let float = PixelFormatRequirements { float_color_buffer: true, ..no_reqs() };
    assert_eq!(choose_config(&cs, &float), Ok(2));
}

#[test]
fn empty_display_has_no_format() {
    assert_eq!(choose_config(&Vec::new(), &no_reqs()), Err(CreationError::NoAvailablePixelFormat));
}

#[test]
fn minimum_bits_and_samples() {
    let mut f = format(true);
    f.multisampling = Some(4);
    let c = NativeConfig { id: 9, format: f, float_color_buffer: false };
    assert!(config_satisfies(&c, &PixelFormatRequirements { depth_bits: Some(24), ..no_reqs() }));
    assert!(!config_satisfies(&c, &PixelFormatRequirements { depth_bits: Some(32), ..no_reqs() }));
    assert!(config_satisfies(&c, &PixelFormatRequirements { multisampling: Some(4), ..no_reqs() }));
    assert!(!config_satisfies(&c, &PixelFormatRequirements { multisampling: Some(8), ..no_reqs() }));
    assert!(!config_satisfies(&single_a(), &PixelFormatRequirements { multisampling: Some(1), ..no_reqs() }));
    assert!(!config_satisfies(&c, &PixelFormatRequirements { hardware_accelerated: Some(false), ..no_reqs() }));
    assert!(!config_satisfies(&c, &PixelFormatRequirements { srgb: true, ..no_reqs() }));
}

#[test]
fn api_resolution() {
    assert_eq!(select_api(DisplayKind::Wayland, GlRequest::Latest), Some(Api::OpenGl));
    assert_eq!(select_api(DisplayKind::Android, GlRequest::Latest), Some(Api::OpenGlEs));
    assert_eq!(select_api(DisplayKind::Android, GlRequest::Specific(Api::OpenGl, (3, 0))), None);
    assert_eq!(select_api(DisplayKind::X11, GlRequest::Specific(Api::OpenGlEs, (2, 0))), Some(Api::OpenGlEs));
    assert_eq!(select_api(DisplayKind::X11, GlRequest::Specific(Api::WebGl, (1, 0))), None);
    let d = display(1, DisplayKind::X11, vec![double_b()]);
    let mut a = attrs::<&glcontext::egl::Context>(None);
    a.version = GlRequest::Specific(Api::WebGl, (1, 0));
    assert_eq!(ContextPrototype::new(&d, &no_reqs(), &a), Err(CreationError::NotSupported));
}

#[test]
fn sharing_across_displays_not_supported() {
    let d1 = display(1, DisplayKind::Android, vec![double_b()]);
    let d2 = display(2, DisplayKind::Android, vec![double_b()]);
    let first = HeadlessContext::new((16, 16), &no_reqs(), &attrs(None), &PlatformSpecificHeadlessBuilderAttributes, &d1).unwrap();
    let r = HeadlessContext::new((16, 16), &no_reqs(), &attrs(Some(&first)), &PlatformSpecificHeadlessBuilderAttributes, &d2);
    assert_eq!(r, Err(CreationError::NotSupported));
}

#[test]
fn sharing_on_same_display_records_context() {
    let d1 = display(1, DisplayKind::Android, vec![double_b()]);
    let first = HeadlessContext::new((16, 16), &no_reqs(), &attrs(None), &PlatformSpecificHeadlessBuilderAttributes, &d1).unwrap();
    let second = HeadlessContext::new((8, 4), &no_reqs(), &attrs(Some(&first)), &PlatformSpecificHeadlessBuilderAttributes, &d1).unwrap();
    assert_eq!(second.0.shared, Some(first.0.id()));
    assert_eq!(second.0.surface, Surface::PBuffer(8, 4));
}

#[test]
fn headless_pbuffer_exact_size() {
    let d = display(3, DisplayKind::Android, vec![single_a(), double_b()]);
    let h = HeadlessContext::new((640, 480), &double_buffered(), &attrs(None), &PlatformSpecificHeadlessBuilderAttributes, &d).unwrap();
    assert_eq!(h.0.surface, Surface::PBuffer(640, 480));
    assert_eq!(h.get_api(), Api::OpenGlEs);
    assert_eq!(h.get_pixel_format(), format(true));
    assert!(!h.is_current());
}

#[test]
fn android_null_window_is_os_error() {
    let d = display(3, DisplayKind::Android, vec![double_b()]);
    let r = AndroidWindow::new(&no_reqs(), &attrs(None), &PlatformSpecificWindowBuilderAttributes, 0, &d);
    assert!(matches!(r, Err(CreationError::OsError(_))));
}

#[test]
fn android_window_binds_native_handle() {
    let d = display(3, DisplayKind::Android, vec![double_b()]);
    let mut w = AndroidWindow::new(&no_reqs(), &attrs(None), &PlatformSpecificWindowBuilderAttributes, 0xdead, &d).unwrap();
    assert_eq!(w.context.surface, Surface::Window(0xdead));
    assert_eq!(w.make_current(STATUS_SUCCESS), Ok(()));
    assert!(w.is_current());
    assert_eq!(w.make_current(STATUS_CONTEXT_LOST), Err(ContextError::ContextLost));
    assert!(!w.is_current());
    WindowProxy.wakeup_event_loop();
}

#[test]
fn status_codes_map_to_errors() {
    assert_eq!(check_status(STATUS_SUCCESS), Ok(()));
    assert_eq!(check_status(STATUS_CONTEXT_LOST), Err(ContextError::ContextLost));
    assert_eq!(check_status(0x3001), Err(ContextError::IoError(0x3001)));
}

#[test]
fn finish_rejects_null_window() {
    let d = display(1, DisplayKind::X11, vec![double_b()]);
    let mut a = attrs::<&glcontext::egl::Context>(None);
    a.profile = Some(GlProfile::Core);
    let p = ContextPrototype::new(&d, &no_reqs(), &a).unwrap();
    assert_eq!(p.profile, Some(GlProfile::Core));
    assert!(matches!(p.finish(0), Err(CreationError::OsError(_))));
    let c = p.finish(5).unwrap();
    assert_eq!(c.surface, Surface::Window(5));
    assert_eq!(c.swap_buffers(STATUS_SUCCESS), Ok(()));
    assert_eq!(c.swap_buffers(0x300D), Err(ContextError::IoError(0x300D)));
}
