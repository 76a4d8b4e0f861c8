//! Context negotiation: selecting a configuration that satisfies the
//! requested pixel format, creating a context for it (optionally sharing
//! the object namespace of another context) and binding it to a surface.
use vstd::prelude::*;
use vstd::string::StringExecFns;
use crate::types::{Api, ContextError, CreationError, GlAttributes, GlProfile, GlRequest, PixelFormat, PixelFormatRequirements};

verus! {

/// Native status code of a successful call.
pub const STATUS_SUCCESS: u32 = 0x3000;

/// Native status code reported when the context has been invalidated.
pub const STATUS_CONTEXT_LOST: u32 = 0x300E;

/// Windowing system a display belongs to.
#[derive(Debug, Clone, Copy, PartialEq, Eq, Structural)]
pub enum DisplayKind {
    X11,
    Wayland,
    Android,
}

/// One configuration advertised by a display.
#[derive(Debug, Clone, Copy, PartialEq, Eq, Structural)]
pub struct NativeConfig {
    pub id: u32,
    pub format: PixelFormat,
    pub float_color_buffer: bool,
}

/// An initialised native display and the configurations it offers, in
/// enumeration order.
#[derive(Debug, Clone)]
pub struct Display {
    pub id: u64,
    pub kind: DisplayKind,
    pub configs: Vec<NativeConfig>,
}

/// Identity of a context: the display it lives on and its configuration.
#[derive(Debug, Clone, Copy, PartialEq, Eq, Structural)]
pub struct ContextId {
    pub display: u64,
    pub config: u32,
}

/// What a context presents into.
#[derive(Debug, Clone, Copy, PartialEq, Eq, Structural)]
pub enum Surface {
    /// On-screen surface wrapping a native window handle.
    Window(u64),
    /// Off-screen pixel buffer of this width and height.
    PBuffer(u32, u32),
}

/// A configuration selected for a set of attributes, not yet bound to a
/// surface.
#[derive(Debug, Clone, Copy, PartialEq, Eq)]
pub struct ContextPrototype {
    pub display: u64,
    pub config: NativeConfig,
    pub api: Api,
    pub version: GlRequest,
    pub profile: Option<GlProfile>,
    pub debug: bool,
    pub vsync: bool,
    pub shared: Option<ContextId>,
}

/// A rendering context bound to a surface.
#[derive(Debug, Clone, PartialEq, Eq)]
pub struct Context {
    pub display: u64,
    pub config: NativeConfig,
    pub api: Api,
    pub shared: Option<ContextId>,
    pub surface: Surface,
    pub current: bool,
}

pub open spec fn at_least_u8(req: Option<u8>, have: u8) -> bool {
    match req {
        Some(n) => n <= have,
        None => true,
    }
}

pub open spec fn flag_matches(req: Option<bool>, have: bool) -> bool {
    match req {
        Some(b) => b == have,
        None => true,
    }
}

pub open spec fn samples_of(ms: Option<u16>) -> u16 {
    match ms {
        Some(n) => n,
        None => 0,
    }
}

/// Whether configuration `c` meets every constraint of `r`.
pub open spec fn satisfies(c: NativeConfig, r: PixelFormatRequirements) -> bool {
    &&& flag_matches(r.hardware_accelerated, c.format.hardware_accelerated)
    &&& at_least_u8(r.color_bits, c.format.color_bits)
    &&& (r.float_color_buffer ==> c.float_color_buffer)
    &&& at_least_u8(r.alpha_bits, c.format.alpha_bits)
    &&& at_least_u8(r.depth_bits, c.format.depth_bits)
    &&& at_least_u8(r.stencil_bits, c.format.stencil_bits)
    &&& flag_matches(r.double_buffer, c.format.double_buffer)
    &&& (match r.multisampling {
        Some(n) => n <= samples_of(c.format.multisampling),
        None => true,
    })
    &&& (r.stereoscopy ==> c.format.stereoscopy)
    &&& (r.srgb ==> c.format.srgb)
}

/// Index of the first configuration of `cs` that satisfies `r`.
pub open spec fn is_first_match(cs: Seq<NativeConfig>, r: PixelFormatRequirements, i: int) -> bool {
    &&& 0 <= i < cs.len()
    &&& satisfies(cs[i], r)
    &&& forall|j: int| 0 <= j < i ==> !satisfies(#[trigger] cs[j], r)
}

pub open spec fn none_matches(cs: Seq<NativeConfig>, r: PixelFormatRequirements) -> bool {
    forall|j: int| 0 <= j < cs.len() ==> !satisfies(#[trigger] cs[j], r)
}

/// The API a display of `kind` provides for `req`, if it can.
pub open spec fn api_for(kind: DisplayKind, req: GlRequest) -> Option<Api> {
    match (kind, req) {
        (_, GlRequest::Specific(Api::WebGl, _)) => None,
        (DisplayKind::Android, GlRequest::Specific(Api::OpenGl, _)) => None,
        (DisplayKind::Android, _) => Some(Api::OpenGlEs),
        (_, GlRequest::Specific(a, _)) => Some(a),
        (_, _) => Some(Api::OpenGl),
    }
}

/// Outcome of a per-frame operation whose native call reported `code`.
pub open spec fn status_result(code: u32) -> Result<(), ContextError> {
    if code == STATUS_SUCCESS {
        Ok(())
    } else if code == STATUS_CONTEXT_LOST {
        Err(ContextError::ContextLost)
    } else {
        Err(ContextError::IoError(code))
    }
}

pub open spec fn context_id(c: Context) -> ContextId {
    ContextId { display: c.display, config: c.config.id }
}

/// Index of the configuration that negotiation selects.
pub open spec fn first_match(cs: Seq<NativeConfig>, r: PixelFormatRequirements) -> int {
    choose|i: int| is_first_match(cs, r, i)
}

/// Identity of the optional sharing context.
pub open spec fn shared_id(s: Option<&Context>) -> Option<ContextId> {
    match s {
        Some(c) => Some(context_id(*c)),
        None => None,
    }
}

/// Result of negotiating a context on `display` for `reqs` and the
/// attributes of `opengl`, sharing with the context `sharing` names.
pub open spec fn negotiate<S>(
    display: Display,
    reqs: PixelFormatRequirements,
    opengl: GlAttributes<S>,
    sharing: Option<ContextId>,
) -> Result<ContextPrototype, CreationError> {
    if none_matches(display.configs@, reqs) {
        Err(CreationError::NoAvailablePixelFormat)
    } else if api_for(display.kind, opengl.version).is_none() {
        Err(CreationError::NotSupported)
    } else if sharing.is_some() && sharing.unwrap().display != display.id {
        Err(CreationError::NotSupported)
    } else {
        Ok(ContextPrototype {
            display: display.id,
            config: display.configs@[first_match(display.configs@, reqs)],
            api: api_for(display.kind, opengl.version).unwrap(),
            version: opengl.version,
            profile: opengl.profile,
            debug: opengl.debug,
            vsync: opengl.vsync,
            shared: sharing,
        })
    }
}

fn flag_ok(req: Option<bool>, have: bool) -> (b: bool)
    ensures
        b == flag_matches(req, have),
{
    match req {
        Some(x) => x == have,
        None => true,
    }
}

fn at_least_ok(req: Option<u8>, have: u8) -> (b: bool)
    ensures
        b == at_least_u8(req, have),
{
    match req {
        Some(n) => n <= have,
        None => true,
    }
}

/// Whether `c` meets every constraint of `r`.
pub fn config_satisfies(c: &NativeConfig, r: &PixelFormatRequirements) -> (b: bool)
    ensures
        b == satisfies(*c, *r),
{
    let samples: u16 = match c.format.multisampling {
        Some(n) => n,
        None => 0,
    };
    let ms_ok = match r.multisampling {
        Some(n) => n <= samples,
        None => true,
    };
    flag_ok(r.hardware_accelerated, c.format.hardware_accelerated)
        && at_least_ok(r.color_bits, c.format.color_bits)
        && (!r.float_color_buffer || c.float_color_buffer)
        && at_least_ok(r.alpha_bits, c.format.alpha_bits)
        && at_least_ok(r.depth_bits, c.format.depth_bits)
        && at_least_ok(r.stencil_bits, c.format.stencil_bits)
        && flag_ok(r.double_buffer, c.format.double_buffer)
        && ms_ok
        && (!r.stereoscopy || c.format.stereoscopy)
        && (!r.srgb || c.format.srgb)
}

/// Selects the first configuration, in enumeration order, that satisfies
/// `reqs`; fails with `NoAvailablePixelFormat` when none does.
pub fn choose_config(configs: &Vec<NativeConfig>, reqs: &PixelFormatRequirements) -> (r: Result<usize, CreationError>)
    ensures
        match r {
            Ok(i) => is_first_match(configs@, *reqs, i as int),
            Err(e) => e == CreationError::NoAvailablePixelFormat && none_matches(configs@, *reqs),
        },
{
    let mut i: usize = 0;
    while i < configs.len()
        invariant
            i <= configs@.len(),
            forall|j: int| 0 <= j < i ==> !satisfies(#[trigger] configs@[j], *reqs),
        decreases configs@.len() - i,
    {
        if config_satisfies(&configs[i], reqs) {
            return Ok(i);
        }
        i = i + 1;
    }
    Err(CreationError::NoAvailablePixelFormat)
}

/// The API a display of `kind` provides for `req`, if it can.
pub fn select_api(kind: DisplayKind, req: GlRequest) -> (r: Option<Api>)
    ensures
        r == api_for(kind, req),
{
    match (kind, req) {
        (_, GlRequest::Specific(Api::WebGl, _)) => None,
        (DisplayKind::Android, GlRequest::Specific(Api::OpenGl, _)) => None,
        (DisplayKind::Android, _) => Some(Api::OpenGlEs),
        (_, GlRequest::Specific(a, _)) => Some(a),
        (_, _) => Some(Api::OpenGl),
    }
}

/// Maps the status code reported by a native make-current or swap call to
/// the portable outcome.
pub fn check_status(code: u32) -> (r: Result<(), ContextError>)
    ensures
        r == status_result(code),
{
    if code == STATUS_SUCCESS {
        Ok(())
    } else if code == STATUS_CONTEXT_LOST {
        Err(ContextError::ContextLost)
    } else {
        Err(ContextError::IoError(code))
    }
}

impl ContextPrototype {
    /// Selects a configuration of `display` for `reqs` and resolves the
    /// requested API. A sharing context must live on the same display.
    pub fn new(display: &Display, reqs: &PixelFormatRequirements, opengl: &GlAttributes<&Context>) -> (r: Result<ContextPrototype, CreationError>)
        ensures
            r == negotiate(*display, *reqs, *opengl, shared_id(opengl.sharing)),
    {
        let idx = match choose_config(&display.configs, reqs) {
            Ok(i) => i,
            Err(e) => return Err(e),
        };
        assert(is_first_match(display.configs@, *reqs, first_match(display.configs@, *reqs)));
        let api = match select_api(display.kind, opengl.version) {
            Some(a) => a,
            None => return Err(CreationError::NotSupported),
        };
        let shared = match opengl.sharing {
            Some(s) => {
                if s.display != display.id {
                    return Err(CreationError::NotSupported);
                }
                Some(s.id())
            },
            None => None,
        };
        Ok(ContextPrototype {
            display: display.id,
            config: display.configs[idx],
            api,
            version: opengl.version,
            profile: opengl.profile,
            debug: opengl.debug,
            vsync: opengl.vsync,
            shared,
        })
    }

    /// Creates the context and binds it to the on-screen surface of the
    /// native window `native_window`; a null handle is an `OsError`.
    pub fn finish(self, native_window: u64) -> (r: Result<Context, CreationError>)
        ensures
            native_window == 0 <==> r is Err,
            r matches Err(e) ==> e is OsError,
            r matches Ok(c) ==> c == self.bind(Surface::Window(native_window)),
    {
        if native_window == 0 {
            return Err(CreationError::OsError(String::from_str("native window handle is null")));
        }
        Ok(Context {
            display: self.display,
            config: self.config,
            api: self.api,
            shared: self.shared,
            surface: Surface::Window(native_window),
            current: false,
        })
    }

    /// Creates the context and binds it to an off-screen pixel buffer of
    /// exactly `dimensions`.
    pub fn finish_pbuffer(self, dimensions: (u32, u32)) -> (r: Result<Context, CreationError>)
        ensures
            r == Ok::<Context, CreationError>(self.bind(Surface::PBuffer(dimensions.0, dimensions.1))),
    {
        Ok(Context {
            display: self.display,
            config: self.config,
            api: self.api,
            shared: self.shared,
            surface: Surface::PBuffer(dimensions.0, dimensions.1),
            current: false,
        })
    }

    /// The context this prototype yields once bound to `surface`.
    pub open spec fn bind(self, surface: Surface) -> Context {
        Context {
            display: self.display,
            config: self.config,
            api: self.api,
            shared: self.shared,
            surface,
            current: false,
        }
    }
}

impl Context {
    /// Identity of this context, as recorded by contexts that share with it.
    pub fn id(&self) -> (r: ContextId)
        ensures
            r == context_id(*self),
    {
        ContextId { display: self.display, config: self.config.id }
    }

    /// Records the outcome of the native make-current call, which reported
    /// `native_status`: the context is current exactly when it succeeded.
    pub fn make_current(&mut self, native_status: u32) -> (r: Result<(), ContextError>)
        ensures
            r == status_result(native_status),
            final(self).current == r is Ok,
            final(self).display == old(self).display,
            final(self).config == old(self).config,
            final(self).api == old(self).api,
            final(self).shared == old(self).shared,
            final(self).surface == old(self).surface,
    {
        let r = check_status(native_status);
        self.current = r.is_ok();
        r
    }

    /// Whether the context is current on the calling thread.
    pub fn is_current(&self) -> (r: bool)
        ensures
            r == self.current,
    {
        self.current
    }

    /// Outcome of presenting the back buffer, whose native call reported
    /// `native_status`.
    pub fn swap_buffers(&self, native_status: u32) -> (r: Result<(), ContextError>)
        ensures
            r == status_result(native_status),
    {
        check_status(native_status)
    }

    pub fn get_api(&self) -> (r: Api)
        ensures
            r == self.api,
    {
        self.api
    }

    pub fn get_pixel_format(&self) -> (r: PixelFormat)
        ensures
            r == self.config.format,
    {
        self.config.format
    }
}

/// A negotiated configuration satisfies every requirement, and comes
/// first among those that do; negotiation fails with
/// `NoAvailablePixelFormat` exactly when no configuration satisfies them.
pub proof fn lemma_negotiated_config_satisfies<S>(
    display: Display,
    reqs: PixelFormatRequirements,
    opengl: GlAttributes<S>,
    sharing: Option<ContextId>,
)
    ensures
        negotiate(display, reqs, opengl, sharing) matches Ok(p) ==> satisfies(p.config, reqs)
            && is_first_match(display.configs@, reqs, first_match(display.configs@, reqs)),
        (negotiate(display, reqs, opengl, sharing) == Err::<ContextPrototype, CreationError>(
            CreationError::NoAvailablePixelFormat)) <==> none_matches(display.configs@, reqs),
{
    if !none_matches(display.configs@, reqs) {
        let i = choose|i: int| 0 <= i < display.configs@.len() && satisfies(#[trigger] display.configs@[i], reqs);
        lemma_first_match_exists(display.configs@, reqs, i);
    }
}

proof fn lemma_first_match_exists(cs: Seq<NativeConfig>, r: PixelFormatRequirements, i: int)
    requires
        0 <= i < cs.len(),
        satisfies(cs[i], r),
    ensures
        is_first_match(cs, r, first_match(cs, r)),
    decreases i,
{
    if forall|j: int| 0 <= j < i ==> !satisfies(#[trigger] cs[j], r) {
        assert(is_first_match(cs, r, i));
    } else {
        let j = choose|j: int| 0 <= j < i && satisfies(#[trigger] cs[j], r);
        lemma_first_match_exists(cs, r, j);
    }
}

/// Sharing with a context of another display fails with `NotSupported`
/// whenever some configuration satisfies the requirements.
pub proof fn lemma_foreign_sharing_refused<S>(
    display: Display,
    reqs: PixelFormatRequirements,
    opengl: GlAttributes<S>,
    sharing: ContextId,
)
    requires
        sharing.display != display.id,
        !none_matches(display.configs@, reqs),
    ensures
        negotiate(display, reqs, opengl, Some(sharing)) == Err::<ContextPrototype, CreationError>(CreationError::NotSupported),
{
}

} // verus!
