//! OpenGL context description: the APIs, versions, profiles and pixel
//! formats that a context can be asked for.
use vstd::prelude::*;

use crate::config::parse::str_chars;
use crate::util::string_from_chars;

verus! {

/// std's I/O error, carried through unchanged.
#[verifier::external_type_specification]
#[verifier::external_body]
pub struct ExIoError(std::io::Error);

/// Error that can happen when manipulating an OpenGL context.
#[derive(Debug)]
pub enum ContextError {
    /// General platform error.
    OsError(String),
    IoError(std::io::Error),
    ContextLost,
}

/// The text that std's deprecated `Error::description` gives for an I/O error.
///
/// Nothing is stated of the text: std documents it only as a short description.
#[verifier::external_body]
fn io_error_description(err: &std::io::Error) -> &str {
    #[allow(deprecated)]
    std::error::Error::description(err)
}

impl ContextError {
    /// A description of the error.
    pub fn to_string(&self) -> (s: &str)
        ensures
            self matches ContextError::OsError(text) ==> s@ == text@,
            self is ContextLost ==> s@ == "Context lost"@,
    {
        match self {
            ContextError::OsError(string) => string.as_str(),
            ContextError::IoError(err) => io_error_description(err),
            ContextError::ContextLost => "Context lost",
        }
    }
}

/// Error that can happen while creating a window or a headless renderer.
///
/// The errors of other layers that it carries are held by their text.
#[derive(Debug)]
pub enum CreationError {
    OsError(String),
    NotSupported(String),
    /// No backend is available; holds the text of the error behind it.
    NoBackendAvailable(String),
    RobustnessNotSupported,
    OpenGlVersionNotSupported,
    NoAvailablePixelFormat,
    PlatformSpecific(String),
    /// The window could not be created; holds the window error's text.
    Window(String),
    /// We received two errors, instead of one.
    CreationErrorPair(Box<CreationError>, Box<CreationError>),
}

/// The short description of a creation error.
pub open spec fn creation_description(e: CreationError) -> Seq<char> {
    match e {
        CreationError::OsError(text) => text@,
        CreationError::NotSupported(text) => text@,
        CreationError::NoBackendAvailable(_) => "No backend is available"@,
        CreationError::RobustnessNotSupported => "You requested robustness, but it is not supported."@,
        CreationError::OpenGlVersionNotSupported => "The requested OpenGL version is not supported."@,
        CreationError::NoAvailablePixelFormat => "Couldn't find any pixel format that matches the criteria."@,
        CreationError::PlatformSpecific(text) => text@,
        CreationError::Window(text) => text@,
        CreationError::CreationErrorPair(_, _) => "Received two errors."@,
    }
}

/// The text of the error that caused a creation error, if any.
pub open spec fn creation_cause(e: CreationError) -> Option<Seq<char>> {
    match e {
        CreationError::NoBackendAvailable(cause) => Some(cause@),
        CreationError::Window(cause) => Some(cause@),
        _ => None,
    }
}

/// The full message of a creation error: its description, the messages of
/// both errors of a pair, the text of an unsupported feature and the text
/// of the cause.
pub open spec fn creation_message(e: CreationError) -> Seq<char>
    decreases e,
{
    let pair = match e {
        CreationError::CreationErrorPair(e1, e2) => " Error 1: \""@ + creation_message(*e1) + "\""@
            + " Error 2: \""@ + creation_message(*e2) + "\""@,
        _ => Seq::empty(),
    };
    let unsupported = match e {
        CreationError::NotSupported(msg) => ": "@ + msg@,
        _ => Seq::empty(),
    };
    let cause = match creation_cause(e) {
        Some(c) => ": "@ + c,
        None => Seq::empty(),
    };
    creation_description(e) + pair + unsupported + cause
}

impl CreationError {
    /// A short description of the error.
    pub fn to_string(&self) -> (s: &str)
        ensures
            s@ == creation_description(*self),
    {
        match self {
            CreationError::OsError(text) => text.as_str(),
            CreationError::NotSupported(text) => text.as_str(),
            CreationError::NoBackendAvailable(_) => "No backend is available",
            CreationError::RobustnessNotSupported => "You requested robustness, but it is not supported.",
            CreationError::OpenGlVersionNotSupported => "The requested OpenGL version is not supported.",
            CreationError::NoAvailablePixelFormat => "Couldn't find any pixel format that matches the criteria.",
            CreationError::PlatformSpecific(text) => text.as_str(),
            CreationError::Window(text) => text.as_str(),
            CreationError::CreationErrorPair(_, _) => "Received two errors.",
        }
    }

    /// The same as `to_string`.
    pub fn description(&self) -> (s: &str)
        ensures
            s@ == creation_description(*self),
    {
        self.to_string()
    }

    /// The text of the error that caused this one.
    pub fn cause(&self) -> (r: Option<&str>)
        ensures
            r matches Some(c) ==> creation_cause(*self) == Some(c@),
            r is None ==> creation_cause(*self) is None,
    {
        match self {
            CreationError::NoBackendAvailable(cause) => Some(cause.as_str()),
            CreationError::Window(cause) => Some(cause.as_str()),
            _ => None,
        }
    }

    /// The full message, as the error is displayed.
    pub fn message(&self) -> (s: String)
        ensures
            s@ == creation_message(*self),
        decreases *self,
    {
        let mut s = self.to_string().to_owned();
        if let CreationError::CreationErrorPair(e1, e2) = self {
            let m1 = e1.message();
            let m2 = e2.message();
            s.append(" Error 1: \"");
            s.append(m1.as_str());
            s.append("\"");
            s.append(" Error 2: \"");
            s.append(m2.as_str());
            s.append("\"");
        }
        if let CreationError::NotSupported(msg) = self {
            s.append(": ");
            s.append(msg.as_str());
        }
        if let Some(cause) = self.cause() {
            s.append(": ");
            s.append(cause);
        }
        s
    }
}

/// The decimal digits of `n`.
pub open spec fn decimal_chars(n: nat) -> Seq<char>
    decreases n,
{
    if n < 10 {
        seq![(0x30 + n) as char]
    } else {
        decimal_chars(n / 10) + seq![(0x30 + n % 10) as char]
    }
}

/// The message that refuses an OpenGL ES version other than 1, 2 and 3.
pub open spec fn version_message(version: u8) -> Seq<char> {
    "Specified OpenGL ES version ("@ + decimal_chars(version as nat)
        + ") is not availble on iOS. Only 1, 2, and 3 are valid options"@
}

/// The digit character of `d`.
fn digit_char(d: u8) -> (c: char)
    requires
        d < 10,
    ensures
        c == (0x30 + d) as char,
{
    match d {
        0 => '0',
        1 => '1',
        2 => '2',
        3 => '3',
        4 => '4',
        5 => '5',
        6 => '6',
        7 => '7',
        8 => '8',
        _ => '9',
    }
}

/// Appends the decimal digits of `n`.
fn push_decimal_chars(out: &mut Vec<char>, n: u8)
    ensures
        final(out)@ == old(out)@ + decimal_chars(n as nat),
    decreases n,
{
    if n >= 10 {
        push_decimal_chars(out, n / 10);
    }
    out.push(digit_char(n % 10));
}

/// The OpenGL ES version to ask for: 1, 2 or 3.
pub fn validate_version(version: u8) -> (r: Result<usize, CreationError>)
    ensures
        1 <= version <= 3 ==> r == Ok::<usize, CreationError>(version as usize),
        !(1 <= version <= 3) ==> (r matches Err(CreationError::OsError(m)) && m@ == version_message(
            version,
        )),
{
    let v = version as usize;
    if v >= 1 && v <= 3 {
        Ok(v)
    } else {
        let mut chars = str_chars("Specified OpenGL ES version (");
        push_decimal_chars(&mut chars, version);
        let suffix = str_chars(") is not availble on iOS. Only 1, 2, and 3 are valid options");
        let mut i: usize = 0;
        let ghost start = chars@;
        while i < suffix.len()
            invariant
                i <= suffix@.len(),
                chars@ == start + suffix@.subrange(0, i as int),
            decreases suffix@.len() - i,
        {
            chars.push(suffix[i]);
            i = i + 1;
        }
        assert(suffix@.subrange(0, suffix@.len() as int) == suffix@);
        Err(CreationError::OsError(string_from_chars(&chars)))
    }
}

/// All APIs related to OpenGL that you can possibly get.
#[derive(Debug, Clone, Copy, PartialEq, Eq, Structural)]
pub enum Api {
    /// The classical OpenGL. Available on Windows, Linux, OS/X.
    OpenGl,
    /// OpenGL embedded system. Available on Linux, Android.
    OpenGlEs,
    /// OpenGL for the web. Very similar to OpenGL ES.
    WebGl,
}

/// Describes the requested OpenGL context profiles.
#[derive(Debug, Clone, Copy, PartialEq, Eq, Structural)]
pub enum GlProfile {
    /// Include all the immediate more functions and definitions.
    Compatibility,
    /// Include all the future-compatible functions and definitions.
    Core,
}

/// Describes the OpenGL API and version that are being requested when a context is created.
#[derive(Debug, Copy, Clone)]
pub enum GlRequest {
    /// Request the latest version of the "best" API of this platform.
    Latest,
    /// Request a specific version of a specific API.
    Specific(Api, (u8, u8)),
    /// If OpenGL is available, create an OpenGL context with `opengl_version`,
    /// else one of OpenGL ES or WebGL with `opengles_version`.
    GlThenGles {
        /// The version to use for OpenGL.
        opengl_version: (u8, u8),
        /// The version to use for OpenGL ES.
        opengles_version: (u8, u8),
    },
}

/// The desktop GL version that a request names, if any.
pub open spec fn gl_version_spec(request: GlRequest) -> Option<(u8, u8)> {
    match request {
        GlRequest::Specific(Api::OpenGl, version) => Some(version),
        GlRequest::GlThenGles { opengl_version, .. } => Some(opengl_version),
        _ => None,
    }
}

impl GlRequest {
    /// Extract the desktop GL version, if any.
    pub fn to_gl_version(&self) -> (r: Option<(u8, u8)>)
        ensures
            r == gl_version_spec(*self),
    {
        match self {
            GlRequest::Specific(Api::OpenGl, version) => Some(*version),
            GlRequest::GlThenGles { opengl_version, .. } => Some(*opengl_version),
            _ => None,
        }
    }
}

/// The minimum core profile GL context: OpenGL 3.2.
pub fn gl_core() -> (r: GlRequest)
    ensures
        r == GlRequest::Specific(Api::OpenGl, (3u8, 2u8)),
{
    GlRequest::Specific(Api::OpenGl, (3, 2))
}

/// Specifies the tolerance of the OpenGL context to faults.
#[derive(Debug, Copy, Clone, PartialEq, Eq, Structural)]
pub enum Robustness {
    /// Not everything is checked.
    NotRobust,
    /// The driver doesn't check anything.
    NoError,
    /// Everything is checked to avoid any crash.
    RobustNoResetNotification,
    /// Same as `RobustNoResetNotification` but creation doesn't fail if unsupported.
    TryRobustNoResetNotification,
    /// Everything is checked; a problem puts the context in a "context lost" state.
    RobustLoseContextOnReset,
    /// Same as `RobustLoseContextOnReset` but creation doesn't fail if unsupported.
    TryRobustLoseContextOnReset,
}

/// The behavior of the driver when you change the current context.
#[derive(Debug, Copy, Clone, PartialEq, Eq, Structural)]
pub enum ReleaseBehavior {
    /// Doesn't do anything. Most notably doesn't flush.
    NoFlush,
    /// Flushes the context that was previously current as if `glFlush` was called.
    Flush,
}

/// Describes a possible format.
#[derive(Debug, Clone, Copy, PartialEq, Eq, Structural)]
pub struct PixelFormat {
    pub hardware_accelerated: bool,
    pub color_bits: u8,
    pub alpha_bits: u8,
    pub depth_bits: u8,
    pub stencil_bits: u8,
    pub stereoscopy: bool,
    pub double_buffer: bool,
    pub multisampling: Option<u16>,
    pub srgb: bool,
}

/// Describes how the backend should choose a pixel format.
#[derive(Clone, Copy, Debug, PartialEq, Eq, Structural)]
pub struct PixelFormatRequirements {
    /// Only hardware-accelerated (or only software) formats; `None`: don't care.
    pub hardware_accelerated: Option<bool>,
    /// Minimum number of bits for the color buffer, excluding alpha.
    pub color_bits: Option<u8>,
    /// Whether the color buffer must be in a floating point format.
    pub float_color_buffer: bool,
    /// Minimum number of bits for the alpha in the color buffer.
    pub alpha_bits: Option<u8>,
    /// Minimum number of bits for the depth buffer.
    pub depth_bits: Option<u8>,
    /// Minimum number of bits for the stencil buffer.
    pub stencil_bits: Option<u8>,
    /// Only double-buffered (or only single-buffered) formats; `None`: don't care.
    pub double_buffer: Option<bool>,
    /// Minimum number of samples per pixel; `Some(0)`: no multisampling.
    pub multisampling: Option<u16>,
    /// Only stereoscopic formats.
    pub stereoscopy: bool,
    /// Only sRGB-capable formats.
    pub srgb: bool,
    /// The behavior when changing the current context.
    pub release_behavior: ReleaseBehavior,
}

impl Default for PixelFormatRequirements {
    fn default() -> (r: PixelFormatRequirements)
        ensures
            r == (PixelFormatRequirements {
                hardware_accelerated: Some(true),
                color_bits: Some(24u8),
                float_color_buffer: false,
                alpha_bits: Some(8u8),
                depth_bits: Some(24u8),
                stencil_bits: Some(8u8),
                double_buffer: None,
                multisampling: None,
                stereoscopy: false,
                srgb: false,
                release_behavior: ReleaseBehavior::Flush,
            }),
    {
        PixelFormatRequirements {
            hardware_accelerated: Some(true),
            color_bits: Some(24),
            float_color_buffer: false,
            alpha_bits: Some(8),
            depth_bits: Some(24),
            stencil_bits: Some(8),
            double_buffer: None,
            multisampling: None,
            stereoscopy: false,
            srgb: false,
            release_behavior: ReleaseBehavior::Flush,
        }
    }
}

/// Attributes to use when creating an OpenGL context.
#[derive(Clone)]
pub struct GlAttributes<S> {
    /// An existing context to share the new the context with.
    pub sharing: Option<S>,
    /// Version to try create.
    pub version: GlRequest,
    /// OpenGL profile to use.
    pub profile: Option<GlProfile>,
    /// Whether to enable the `debug` flag of the context.
    pub debug: bool,
    /// How the OpenGL context should detect errors.
    pub robustness: Robustness,
    /// Whether to use vsync.
    pub vsync: bool,
}

impl<S> GlAttributes<S> {
    /// Turns the `sharing` parameter into another type by calling a closure.
    pub fn map_sharing<F, T>(self, f: F) -> (r: GlAttributes<T>)
        where
            F: FnOnce(S) -> T,
        requires
            self.sharing matches Some(s) ==> f.requires((s,)),
        ensures
            self.sharing is None ==> r.sharing is None,
            self.sharing matches Some(s) ==> (r.sharing matches Some(t) && f.ensures((s,), t)),
            r.version == self.version,
            r.profile == self.profile,
            r.debug == self.debug,
            r.robustness == self.robustness,
            r.vsync == self.vsync,
    {
        let sharing = match self.sharing {
            Some(s) => Some(f(s)),
            None => None,
        };
        GlAttributes {
            sharing,
            version: self.version,
            profile: self.profile,
            debug: self.debug,
            robustness: self.robustness,
            vsync: self.vsync,
        }
    }
}

/// Whether `n` is a power of two.
pub open spec fn is_power_of_two(n: u16) -> bool {
    n != 0 && n & ((n - 1) as u16) == 0
}

/// Builds the attributes and pixel format requirements of a context; `S`
/// stands for the context to share display lists with.
pub struct ContextBuilder<S> {
    /// The attributes to use to create the context.
    pub gl_attr: GlAttributes<S>,
    /// The requirements on the pixel format.
    pub pf_reqs: PixelFormatRequirements,
}

impl<S> ContextBuilder<S> {
    /// A builder with the default values: the latest version of the best
    /// API, no profile, not robust, no vsync, no sharing, the default pixel
    /// format requirements, and the debug flag given (on in debug builds).
    pub fn new(debug: bool) -> (r: ContextBuilder<S>)
        ensures
            r.gl_attr.sharing is None,
            r.gl_attr.version == GlRequest::Latest,
            r.gl_attr.profile is None,
            r.gl_attr.debug == debug,
            r.gl_attr.robustness == Robustness::NotRobust,
            !r.gl_attr.vsync,
            r.pf_reqs == (PixelFormatRequirements {
                hardware_accelerated: Some(true),
                color_bits: Some(24u8),
                float_color_buffer: false,
                alpha_bits: Some(8u8),
                depth_bits: Some(24u8),
                stencil_bits: Some(8u8),
                double_buffer: None,
                multisampling: None,
                stereoscopy: false,
                srgb: false,
                release_behavior: ReleaseBehavior::Flush,
            }),
    {
        ContextBuilder {
            pf_reqs: PixelFormatRequirements::default(),
            gl_attr: GlAttributes {
                sharing: None,
                version: GlRequest::Latest,
                profile: None,
                debug,
                robustness: Robustness::NotRobust,
                vsync: false,
            },
        }
    }

    /// Sets how the backend should choose the OpenGL API and version.
    pub fn with_gl(self, request: GlRequest) -> (r: ContextBuilder<S>)
        ensures
            r.gl_attr == (GlAttributes { version: request, ..self.gl_attr }),
            r.pf_reqs == self.pf_reqs,
    {
        let mut b = self;
        b.gl_attr.version = request;
        b
    }

    /// Sets the desired OpenGL context profile.
    pub fn with_gl_profile(self, profile: GlProfile) -> (r: ContextBuilder<S>)
        ensures
            r.gl_attr == (GlAttributes { profile: Some(profile), ..self.gl_attr }),
            r.pf_reqs == self.pf_reqs,
    {
        let mut b = self;
        b.gl_attr.profile = Some(profile);
        b
    }

    /// Sets the *debug* flag for the OpenGL context.
    pub fn with_gl_debug_flag(self, flag: bool) -> (r: ContextBuilder<S>)
        ensures
            r.gl_attr == (GlAttributes { debug: flag, ..self.gl_attr }),
            r.pf_reqs == self.pf_reqs,
    {
        let mut b = self;
        b.gl_attr.debug = flag;
        b
    }

    /// Sets the robustness of the OpenGL context.
    pub fn with_gl_robustness(self, robustness: Robustness) -> (r: ContextBuilder<S>)
        ensures
            r.gl_attr == (GlAttributes { robustness, ..self.gl_attr }),
            r.pf_reqs == self.pf_reqs,
    {
        let mut b = self;
        b.gl_attr.robustness = robustness;
        b
    }

    /// Requests that the window has vsync enabled.
    pub fn with_vsync(self, vsync: bool) -> (r: ContextBuilder<S>)
        ensures
            r.gl_attr == (GlAttributes { vsync, ..self.gl_attr }),
            r.pf_reqs == self.pf_reqs,
    {
        let mut b = self;
        b.gl_attr.vsync = vsync;
        b
    }

    /// Share the display lists with the given context.
    pub fn with_shared_lists(self, other: S) -> (r: ContextBuilder<S>)
        ensures
            r.gl_attr == (GlAttributes { sharing: Some(other), ..self.gl_attr }),
            r.pf_reqs == self.pf_reqs,
    {
        let mut b = self;
        b.gl_attr.sharing = Some(other);
        b
    }

    /// Sets the multisampling level to request, which must be 0 or a power
    /// of two; `Some(0)` asks that multisampling not be enabled.
    pub fn with_multisampling(self, samples: u16) -> (r: ContextBuilder<S>)
        requires
            samples == 0 || is_power_of_two(samples),
        ensures
            r.gl_attr == self.gl_attr,
            r.pf_reqs == (PixelFormatRequirements { multisampling: Some(samples), ..self.pf_reqs }),
    {
        let mut b = self;
        b.pf_reqs.multisampling = Some(samples);
        b
    }

    /// Sets the number of bits in the depth buffer.
    pub fn with_depth_buffer(self, bits: u8) -> (r: ContextBuilder<S>)
        ensures
            r.gl_attr == self.gl_attr,
            r.pf_reqs == (PixelFormatRequirements { depth_bits: Some(bits), ..self.pf_reqs }),
    {
        let mut b = self;
        b.pf_reqs.depth_bits = Some(bits);
        b
    }

    /// Sets the number of bits in the stencil buffer.
    pub fn with_stencil_buffer(self, bits: u8) -> (r: ContextBuilder<S>)
        ensures
            r.gl_attr == self.gl_attr,
            r.pf_reqs == (PixelFormatRequirements { stencil_bits: Some(bits), ..self.pf_reqs }),
    {
        let mut b = self;
        b.pf_reqs.stencil_bits = Some(bits);
        b
    }

    /// Sets the number of bits in the color buffer.
    pub fn with_pixel_format(self, color_bits: u8, alpha_bits: u8) -> (r: ContextBuilder<S>)
        ensures
            r.gl_attr == self.gl_attr,
            r.pf_reqs == (PixelFormatRequirements {
                color_bits: Some(color_bits),
                alpha_bits: Some(alpha_bits),
                ..self.pf_reqs
            }),
    {
        let mut b = self;
        b.pf_reqs.color_bits = Some(color_bits);
        b.pf_reqs.alpha_bits = Some(alpha_bits);
        b
    }

    /// Request the backend to be stereoscopic.
    pub fn with_stereoscopy(self) -> (r: ContextBuilder<S>)
        ensures
            r.gl_attr == self.gl_attr,
            r.pf_reqs == (PixelFormatRequirements { stereoscopy: true, ..self.pf_reqs }),
    {
        let mut b = self;
        b.pf_reqs.stereoscopy = true;
        b
    }

    /// Sets whether sRGB should be enabled on the window.
    pub fn with_srgb(self, srgb_enabled: bool) -> (r: ContextBuilder<S>)
        ensures
            r.gl_attr == self.gl_attr,
            r.pf_reqs == (PixelFormatRequirements { srgb: srgb_enabled, ..self.pf_reqs }),
    {
        let mut b = self;
        b.pf_reqs.srgb = srgb_enabled;
        b
    }

    /// Sets whether double buffering should be enabled.
    pub fn with_double_buffer(self, double_buffer: Option<bool>) -> (r: ContextBuilder<S>)
        ensures
            r.gl_attr == self.gl_attr,
            r.pf_reqs == (PixelFormatRequirements { double_buffer, ..self.pf_reqs }),
    {
        let mut b = self;
        b.pf_reqs.double_buffer = double_buffer;
        b
    }

    /// Sets whether hardware acceleration is required.
    pub fn with_hardware_acceleration(self, acceleration: Option<bool>) -> (r: ContextBuilder<S>)
        ensures
            r.gl_attr == self.gl_attr,
            r.pf_reqs == (PixelFormatRequirements {
                hardware_accelerated: acceleration,
                ..self.pf_reqs
            }),
    {
        let mut b = self;
        b.pf_reqs.hardware_accelerated = acceleration;
        b
    }
}

/// The color format of a drawable view.
#[derive(Debug, Clone, Copy, PartialEq, Eq, Structural)]
pub enum ColorFormat {
    Rgba8888,
    Rgb565,
    Srgba8888,
}

impl ColorFormat {
    /// Bits per color channel group: 8 for the 8888 formats, 16 otherwise.
    pub fn color_bits(&self) -> (r: u8)
        ensures
            r == (if *self == ColorFormat::Rgba8888 || *self == ColorFormat::Srgba8888 { 8u8 } else { 16u8 }),
    {
        if *self == ColorFormat::Rgba8888 || *self == ColorFormat::Srgba8888 {
            8
        } else {
            16
        }
    }

    /// Alpha bits: 8 for the 8888 formats, none otherwise.
    pub fn alpha_bits(&self) -> (r: u8)
        ensures
            r == (if *self == ColorFormat::Rgba8888 || *self == ColorFormat::Srgba8888 { 8u8 } else { 0u8 }),
    {
        if *self == ColorFormat::Rgba8888 || *self == ColorFormat::Srgba8888 {
            8
        } else {
            0
        }
    }

    /// Whether the format is sRGB.
    pub fn srgb(&self) -> (r: bool)
        ensures
            r == (*self == ColorFormat::Srgba8888),
    {
        *self == ColorFormat::Srgba8888
    }
}

/// The library that makes the OpenGL context of an X11 window.
#[derive(Debug, Clone, Copy, PartialEq, Eq, Structural)]
pub enum Backend {
    Glx,
    Egl,
}

/// Which library makes a context for `request` on X11, given which of GLX
/// and EGL are present; otherwise the text of the "not supported" error.
/// GLX is preferred over EGL for desktop OpenGL; OpenGL ES needs EGL; no
/// other specific API is supported.
pub open spec fn x11_backend_spec(request: GlRequest, glx_available: bool, egl_available: bool) -> Result<
    Backend,
    Seq<char>,
> {
    match request {
        GlRequest::Specific(Api::OpenGlEs, _) => if egl_available {
            Ok(Backend::Egl)
        } else {
            Err("libEGL not present"@)
        },
        GlRequest::Specific(Api::WebGl, _) => Err("requested specific without gl or gles"@),
        _ => if glx_available {
            Ok(Backend::Glx)
        } else if egl_available {
            Ok(Backend::Egl)
        } else {
            Err("both libglx and libEGL not present"@)
        },
    }
}

fn not_supported(text: &str) -> (e: CreationError)
    ensures
        e matches CreationError::NotSupported(t) && t@ == text@,
{
    CreationError::NotSupported(string_from_chars(&str_chars(text)))
}

/// Chooses the library that makes the context for `request` on an X11
/// display where GLX and EGL are present or not.
pub fn x11_backend_choice(request: GlRequest, glx_available: bool, egl_available: bool) -> (r: Result<
    Backend,
    CreationError,
>)
    ensures
        match r {
            Ok(b) => x11_backend_spec(request, glx_available, egl_available) == Ok::<Backend, Seq<char>>(b),
            Err(e) => x11_backend_spec(request, glx_available, egl_available) matches Err(m) && (e matches CreationError::NotSupported(t) && t@ == m),
        },
{
    match request {
        GlRequest::Specific(Api::OpenGlEs, _) => {
            if egl_available {
                Ok(Backend::Egl)
            } else {
                Err(not_supported("libEGL not present"))
            }
        },
        GlRequest::Specific(Api::WebGl, _) => Err(not_supported("requested specific without gl or gles")),
        _ => {
            if glx_available {
                Ok(Backend::Glx)
            } else if egl_available {
                Ok(Backend::Egl)
            } else {
                Err(not_supported("both libglx and libEGL not present"))
            }
        },
    }
}

} // verus!
