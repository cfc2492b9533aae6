//! The attribute lists that ask EGL for a frame buffer configuration and
//! for a context, built from what was requested and what the EGL display
//! offers.
//!
//! The attributes are named symbolically; whoever calls EGL passes each
//! name as the EGL constant of the same name.
use vstd::prelude::*;

use crate::config::parse::{chars_eq_str, str_chars};
use crate::glutin::{
    Api, CreationError, GlRequest, PixelFormat, PixelFormatRequirements, ReleaseBehavior, Robustness,
};

verus! {

/// An entry of an EGL attribute list: an attribute or constant named as in
/// EGL (`EGL_` left out), or a number.
#[derive(Debug, Clone, Copy, PartialEq, Eq, Structural)]
pub enum EglAttrib {
    ColorBufferType,
    RgbBuffer,
    SurfaceType,
    WindowBit,
    RenderableType,
    Conformant,
    OpenGlEs3Bit,
    OpenGlEs2Bit,
    OpenGlEsBit,
    OpenGlBit,
    ConfigCaveat,
    SlowConfig,
    RedSize,
    GreenSize,
    BlueSize,
    AlphaSize,
    DepthSize,
    StencilSize,
    Samples,
    ContextMajorVersion,
    ContextMinorVersion,
    ContextOpenGlNoErrorKhr,
    ContextOpenGlResetNotificationStrategy,
    NoResetNotification,
    LoseContextOnReset,
    ContextOpenGlDebug,
    True,
    ContextFlagsKhr,
    ContextOpenGlRobustAccess,
    ContextClientVersion,
    /// `EGL_NONE`: no caveat, and the end of every list.
    NoneValue,
    /// A number.
    Int(i32),
}

/// The EGL version `v` is at least `major.minor`.
pub open spec fn egl_at_least(v: (i32, i32), major: i32, minor: i32) -> bool {
    v.0 > major || (v.0 == major && v.1 >= minor)
}

fn at_least(v: (i32, i32), major: i32, minor: i32) -> (r: bool)
    ensures
        r == egl_at_least(v, major, minor),
{
    v.0 > major || (v.0 == major && v.1 >= minor)
}

/// The renderable type and conformance that the API asks for; `Err` when
/// the display's EGL is too old, `None` for a request that is not handled
/// (OpenGL ES other than 1, 2 or 3, and WebGL).
pub open spec fn api_attribs(egl_version: (i32, i32), api: Api, version: Option<(u8, u8)>) -> Option<
    Result<Seq<EglAttrib>, CreationError>,
> {
    let recent = egl_at_least(egl_version, 1, 3);
    match (api, version) {
        (Api::OpenGlEs, Some((3, _))) => Some(
            if !recent {
                Err(CreationError::NoAvailablePixelFormat)
            } else {
                Ok(
                    seq![
                        EglAttrib::RenderableType,
                        EglAttrib::OpenGlEs3Bit,
                        EglAttrib::Conformant,
                        EglAttrib::OpenGlEs3Bit,
                    ],
                )
            },
        ),
        (Api::OpenGlEs, Some((2, _))) => Some(
            if !recent {
                Err(CreationError::NoAvailablePixelFormat)
            } else {
                Ok(
                    seq![
                        EglAttrib::RenderableType,
                        EglAttrib::OpenGlEs2Bit,
                        EglAttrib::Conformant,
                        EglAttrib::OpenGlEs2Bit,
                    ],
                )
            },
        ),
        (Api::OpenGlEs, Some((1, _))) => Some(
            Ok(
                if recent {
                    seq![
                        EglAttrib::RenderableType,
                        EglAttrib::OpenGlEsBit,
                        EglAttrib::Conformant,
                        EglAttrib::OpenGlEsBit,
                    ]
                } else {
                    Seq::empty()
                },
            ),
        ),
        (Api::OpenGl, _) => Some(
            if !recent {
                Err(CreationError::NoAvailablePixelFormat)
            } else {
                Ok(
                    seq![
                        EglAttrib::RenderableType,
                        EglAttrib::OpenGlBit,
                        EglAttrib::Conformant,
                        EglAttrib::OpenGlBit,
                    ],
                )
            },
        ),
        _ => None,
    }
}

/// The attribute and value for an optional requirement.
pub open spec fn optional_attrib(name: EglAttrib, value: Option<u8>) -> Seq<EglAttrib> {
    match value {
        Some(v) => seq![name, EglAttrib::Int(v as i32)],
        None => Seq::empty(),
    }
}

/// The caveat that the hardware acceleration requirement asks for.
pub open spec fn caveat_attribs(hardware_accelerated: Option<bool>) -> Seq<EglAttrib> {
    match hardware_accelerated {
        Some(true) => seq![EglAttrib::ConfigCaveat, EglAttrib::NoneValue],
        Some(false) => seq![EglAttrib::ConfigCaveat, EglAttrib::SlowConfig],
        None => Seq::empty(),
    }
}

/// The color bits split over red, green and blue; green, then blue, take
/// the remainder.
pub open spec fn color_attribs(color_bits: Option<u8>) -> Seq<EglAttrib> {
    match color_bits {
        Some(c) => seq![
            EglAttrib::RedSize,
            EglAttrib::Int((c / 3) as i32),
            EglAttrib::GreenSize,
            EglAttrib::Int((c / 3 + if c % 3 != 0 { 1int } else { 0int }) as i32),
            EglAttrib::BlueSize,
            EglAttrib::Int((c / 3 + if c % 3 == 2 { 1int } else { 0int }) as i32),
        ],
        None => Seq::empty(),
    }
}

/// The number of samples that the multisampling requirement asks for.
pub open spec fn samples_attribs(multisampling: Option<u16>) -> Seq<EglAttrib> {
    match multisampling {
        Some(n) => seq![EglAttrib::Samples, EglAttrib::Int(n as i32)],
        None => Seq::empty(),
    }
}

/// The attributes that the pixel format requirements ask for: the caveat,
/// the color bits, the alpha, depth and stencil bits, and the samples.
pub open spec fn requirement_attribs(reqs: PixelFormatRequirements) -> Seq<EglAttrib> {
    caveat_attribs(reqs.hardware_accelerated) + color_attribs(reqs.color_bits) + optional_attrib(
        EglAttrib::AlphaSize,
        reqs.alpha_bits,
    ) + optional_attrib(EglAttrib::DepthSize, reqs.depth_bits) + optional_attrib(
        EglAttrib::StencilSize,
        reqs.stencil_bits,
    ) + samples_attribs(reqs.multisampling)
}

/// The attributes that open every configuration request: an RGB color
/// buffer from EGL 1.2 on, and a window surface.
pub open spec fn head_attribs(egl_version: (i32, i32)) -> Seq<EglAttrib> {
    (if egl_at_least(egl_version, 1, 2) {
        seq![EglAttrib::ColorBufferType, EglAttrib::RgbBuffer]
    } else {
        Seq::empty()
    }) + seq![EglAttrib::SurfaceType, EglAttrib::WindowBit]
}

/// The attribute list that asks for a frame buffer configuration: an RGB
/// color buffer from EGL 1.2 on, a window surface, the API's renderable
/// type and the requirements, ended by `NoneValue`. No configuration is
/// available for a double buffer or stereoscopy, nor for an API that needs
/// EGL 1.3 on an older EGL. `None` for requests that are not handled: an
/// OpenGL ES version other than 1, 2 or 3, WebGL, and a release behavior
/// other than flushing.
pub open spec fn config_descriptor_spec(
    egl_version: (i32, i32),
    api: Api,
    version: Option<(u8, u8)>,
    reqs: PixelFormatRequirements,
) -> Option<Result<Seq<EglAttrib>, CreationError>> {
    let head = head_attribs(egl_version);
    match api_attribs(egl_version, api, version) {
        None => None,
        Some(Err(e)) => Some(Err(e)),
        Some(Ok(a)) => if reqs.double_buffer == Some(true) || reqs.stereoscopy {
            Some(Err(CreationError::NoAvailablePixelFormat))
        } else if reqs.release_behavior == ReleaseBehavior::NoFlush {
            None
        } else {
            Some(Ok(head + a + requirement_attribs(reqs) + seq![EglAttrib::NoneValue]))
        },
    }
}

fn optional_exec(name: EglAttrib, value: Option<u8>) -> (v: Vec<EglAttrib>)
    ensures
        v@ == optional_attrib(name, value),
{
    let mut out: Vec<EglAttrib> = Vec::new();
    if let Some(x) = value {
        out.push(name);
        out.push(EglAttrib::Int(x as i32));
    }
    assert(out@ =~= optional_attrib(name, value));
    out
}

fn push_four(out: &mut Vec<EglAttrib>, a: EglAttrib, b: EglAttrib, c: EglAttrib, d: EglAttrib)
    ensures
        final(out)@ == old(out)@ + seq![a, b, c, d],
{
    out.push(a);
    out.push(b);
    out.push(c);
    out.push(d);
    assert(final(out)@ =~= old(out)@ + seq![a, b, c, d]);
}

fn head_attribs_exec(egl_version: (i32, i32)) -> (v: Vec<EglAttrib>)
    ensures
        v@ == head_attribs(egl_version),
{
    let mut out: Vec<EglAttrib> = Vec::new();
    if at_least(egl_version, 1, 2) {
        out.push(EglAttrib::ColorBufferType);
        out.push(EglAttrib::RgbBuffer);
    }
    out.push(EglAttrib::SurfaceType);
    out.push(EglAttrib::WindowBit);
    assert(out@ =~= head_attribs(egl_version));
    out
}

fn push_api_attribs(out: &mut Vec<EglAttrib>, egl_version: (i32, i32), api: Api, version: Option<(u8, u8)>) -> (r: Result<(), CreationError>)
    requires
        api_attribs(egl_version, api, version) is Some,
    ensures
        match api_attribs(egl_version, api, version).unwrap() {
            Ok(a) => r is Ok && final(out)@ == old(out)@ + a,
            Err(e) => r == Err::<(), CreationError>(e),
        },
{
    let recent = at_least(egl_version, 1, 3);
    match (api, version) {
        (Api::OpenGlEs, Some((3, _))) => {
            if !recent {
                return Err(CreationError::NoAvailablePixelFormat);
            }
            push_four(out, EglAttrib::RenderableType, EglAttrib::OpenGlEs3Bit, EglAttrib::Conformant, EglAttrib::OpenGlEs3Bit);
        },
        (Api::OpenGlEs, Some((2, _))) => {
            if !recent {
                return Err(CreationError::NoAvailablePixelFormat);
            }
            push_four(out, EglAttrib::RenderableType, EglAttrib::OpenGlEs2Bit, EglAttrib::Conformant, EglAttrib::OpenGlEs2Bit);
        },
        (Api::OpenGlEs, Some((1, _))) => {
            if recent {
                push_four(out, EglAttrib::RenderableType, EglAttrib::OpenGlEsBit, EglAttrib::Conformant, EglAttrib::OpenGlEsBit);
            } else {
                assert(out@ =~= out@ + Seq::<EglAttrib>::empty());
            }
        },
        (Api::OpenGl, _) => {
            if !recent {
                return Err(CreationError::NoAvailablePixelFormat);
            }
            push_four(out, EglAttrib::RenderableType, EglAttrib::OpenGlBit, EglAttrib::Conformant, EglAttrib::OpenGlBit);
        },
        _ => {
            return vstd::pervasive::unreached();
        },
    }
    Ok(())
}

fn caveat_exec(hardware_accelerated: Option<bool>) -> (v: Vec<EglAttrib>)
    ensures
        v@ == caveat_attribs(hardware_accelerated),
{
    let mut out: Vec<EglAttrib> = Vec::new();
    match hardware_accelerated {
        Some(true) => {
            out.push(EglAttrib::ConfigCaveat);
            out.push(EglAttrib::NoneValue);
        },
        Some(false) => {
            out.push(EglAttrib::ConfigCaveat);
            out.push(EglAttrib::SlowConfig);
        },
        None => {},
    }
    assert(out@ =~= caveat_attribs(hardware_accelerated));
    out
}

fn color_exec(color_bits: Option<u8>) -> (v: Vec<EglAttrib>)
    ensures
        v@ == color_attribs(color_bits),
{
    let mut out: Vec<EglAttrib> = Vec::new();
    if let Some(color) = color_bits {
        out.push(EglAttrib::RedSize);
        out.push(EglAttrib::Int((color / 3) as i32));
        out.push(EglAttrib::GreenSize);
        out.push(EglAttrib::Int((color / 3 + if color % 3 != 0 { 1 } else { 0 }) as i32));
        out.push(EglAttrib::BlueSize);
        out.push(EglAttrib::Int((color / 3 + if color % 3 == 2 { 1 } else { 0 }) as i32));
    }
    assert(out@ =~= color_attribs(color_bits));
    out
}

fn samples_exec(multisampling: Option<u16>) -> (v: Vec<EglAttrib>)
    ensures
        v@ == samples_attribs(multisampling),
{
    let mut out: Vec<EglAttrib> = Vec::new();
    if let Some(n) = multisampling {
        out.push(EglAttrib::Samples);
        out.push(EglAttrib::Int(n as i32));
    }
    assert(out@ =~= samples_attribs(multisampling));
    out
}

fn requirement_attribs_exec(reqs: &PixelFormatRequirements) -> (v: Vec<EglAttrib>)
    ensures
        v@ == requirement_attribs(*reqs),
{
    let mut out = caveat_exec(reqs.hardware_accelerated);
    let mut color = color_exec(reqs.color_bits);
    out.append(&mut color);
    let mut alpha = optional_exec(EglAttrib::AlphaSize, reqs.alpha_bits);
    out.append(&mut alpha);
    let mut depth = optional_exec(EglAttrib::DepthSize, reqs.depth_bits);
    out.append(&mut depth);
    let mut stencil = optional_exec(EglAttrib::StencilSize, reqs.stencil_bits);
    out.append(&mut stencil);
    let mut samples = samples_exec(reqs.multisampling);
    out.append(&mut samples);
    out
}

/// Builds the attribute list that asks EGL for a frame buffer configuration
/// that meets `reqs`, for `api` at `version` on a display of `egl_version`.
pub fn egl_config_descriptor(
    egl_version: (i32, i32),
    api: Api,
    version: Option<(u8, u8)>,
    reqs: &PixelFormatRequirements,
) -> (r: Result<Vec<EglAttrib>, CreationError>)
    requires
        config_descriptor_spec(egl_version, api, version, *reqs) is Some,
    ensures
        match r {
            Ok(v) => config_descriptor_spec(egl_version, api, version, *reqs) == Some(
                Ok::<Seq<EglAttrib>, CreationError>(v@),
            ),
            Err(e) => config_descriptor_spec(egl_version, api, version, *reqs) == Some(
                Err::<Seq<EglAttrib>, CreationError>(e),
            ),
        },
{
    let mut out = head_attribs_exec(egl_version);
    match push_api_attribs(&mut out, egl_version, api, version) {
        Ok(()) => {},
        Err(e) => {
            return Err(e);
        },
    }
    if let Some(true) = reqs.double_buffer {
        return Err(CreationError::NoAvailablePixelFormat);
    }
    if reqs.stereoscopy {
        return Err(CreationError::NoAvailablePixelFormat);
    }
    match reqs.release_behavior {
        ReleaseBehavior::Flush => {},
        ReleaseBehavior::NoFlush => {
            return vstd::pervasive::unreached();
        },
    }
    let ghost with_api = out@;
    let mut req = requirement_attribs_exec(reqs);
    out.append(&mut req);
    out.push(EglAttrib::NoneValue);
    assert(out@ =~= with_api + requirement_attribs(*reqs) + seq![EglAttrib::NoneValue]);
    Ok(out)
}

/// Whether `name` is among the extensions `extensions`.
pub open spec fn has_extension(extensions: Seq<String>, name: Seq<char>) -> bool {
    exists|i: int| 0 <= i < extensions.len() && #[trigger] extensions[i]@ == name
}

fn extension_listed(extensions: &[String], name: &str) -> (r: bool)
    ensures
        r == has_extension(extensions@, name@),
{
    let mut i: usize = 0;
    while i < extensions.len()
        invariant
            i <= extensions@.len(),
            forall|j: int| 0 <= j < i ==> #[trigger] extensions@[j]@ != name@,
        decreases extensions@.len() - i,
    {
        let chars = str_chars(extensions[i].as_str());
        let n = chars.len();
        if chars_eq_str(&chars, 0, n, name) {
            assert(chars@.subrange(0, n as int) =~= chars@);
            assert(extensions@[i as int]@ == name@);
            return true;
        }
        assert(chars@.subrange(0, n as int) =~= chars@);
        i = i + 1;
    }
    false
}

/// The reset notification attributes for a robustness, and whether the
/// robust access flag goes with them, when robustness is supported.
pub open spec fn robustness_attribs(robustness: Robustness, supported: bool, no_error: bool) -> Result<
    (Seq<EglAttrib>, bool),
    CreationError,
> {
    match robustness {
        Robustness::NotRobust => Ok((Seq::empty(), false)),
        Robustness::NoError => Ok(
            (
                if no_error {
                    seq![EglAttrib::ContextOpenGlNoErrorKhr, EglAttrib::Int(1)]
                } else {
                    Seq::empty()
                },
                false,
            ),
        ),
        Robustness::RobustNoResetNotification => if supported {
            Ok((seq![EglAttrib::ContextOpenGlResetNotificationStrategy, EglAttrib::NoResetNotification], true))
        } else {
            Err(CreationError::RobustnessNotSupported)
        },
        Robustness::TryRobustNoResetNotification => if supported {
            Ok((seq![EglAttrib::ContextOpenGlResetNotificationStrategy, EglAttrib::NoResetNotification], true))
        } else {
            Ok((Seq::empty(), false))
        },
        Robustness::RobustLoseContextOnReset => if supported {
            Ok((seq![EglAttrib::ContextOpenGlResetNotificationStrategy, EglAttrib::LoseContextOnReset], true))
        } else {
            Err(CreationError::RobustnessNotSupported)
        },
        Robustness::TryRobustLoseContextOnReset => if supported {
            Ok((seq![EglAttrib::ContextOpenGlResetNotificationStrategy, EglAttrib::LoseContextOnReset], true))
        } else {
            Ok((Seq::empty(), false))
        },
    }
}

/// The attribute list for creating a context of `api` at `version`. With
/// EGL 1.5 or `EGL_KHR_create_context`: the major and minor version, the
/// robustness (supported from EGL 1.5 or with
/// `EGL_EXT_create_context_robustness`; no-error with
/// `EGL_KHR_create_context_no_error`), debugging from EGL 1.5, and the
/// robust access flag. Otherwise, for OpenGL ES from EGL 1.3: the client
/// version, where a required robustness is not supported. Ended by
/// `NoneValue`.
pub open spec fn context_attributes_spec(
    egl_version: (i32, i32),
    extensions: Seq<String>,
    api: Api,
    version: (u8, u8),
    gl_debug: bool,
    robustness: Robustness,
) -> Result<Seq<EglAttrib>, CreationError> {
    let v15 = egl_at_least(egl_version, 1, 5);
    if v15 || has_extension(extensions, "EGL_KHR_create_context"@) {
        let supported = v15 || has_extension(extensions, "EGL_EXT_create_context_robustness"@);
        let no_error = has_extension(extensions, "EGL_KHR_create_context_no_error"@);
        match robustness_attribs(robustness, supported, no_error) {
            Err(e) => Err(e),
            Ok((rob, flag)) => Ok(
                seq![
                    EglAttrib::ContextMajorVersion,
                    EglAttrib::Int(version.0 as i32),
                    EglAttrib::ContextMinorVersion,
                    EglAttrib::Int(version.1 as i32),
                ] + rob + (if gl_debug && v15 {
                    seq![EglAttrib::ContextOpenGlDebug, EglAttrib::True]
                } else {
                    Seq::empty()
                }) + (if flag {
                    seq![EglAttrib::ContextFlagsKhr, EglAttrib::ContextOpenGlRobustAccess]
                } else {
                    Seq::empty()
                }) + seq![EglAttrib::NoneValue],
            ),
        }
    } else if egl_at_least(egl_version, 1, 3) && api == Api::OpenGlEs {
        if robustness == Robustness::RobustNoResetNotification || robustness
            == Robustness::RobustLoseContextOnReset {
            Err(CreationError::RobustnessNotSupported)
        } else {
            Ok(seq![EglAttrib::ContextClientVersion, EglAttrib::Int(version.0 as i32), EglAttrib::NoneValue])
        }
    } else {
        Ok(seq![EglAttrib::NoneValue])
    }
}

/// Builds the attribute list for creating a context of `api` at `version`
/// with the given debugging and robustness, on a display of `egl_version`
/// that offers `extensions`.
pub fn egl_context_attributes(
    egl_version: (i32, i32),
    extensions: &[String],
    api: Api,
    version: (u8, u8),
    gl_debug: bool,
    robustness: Robustness,
) -> (r: Result<Vec<EglAttrib>, CreationError>)
    ensures
        match r {
            Ok(v) => context_attributes_spec(egl_version, extensions@, api, version, gl_debug, robustness)
                == Ok::<Seq<EglAttrib>, CreationError>(v@),
            Err(e) => context_attributes_spec(egl_version, extensions@, api, version, gl_debug, robustness)
                == Err::<Seq<EglAttrib>, CreationError>(e),
        },
{
    let v15 = at_least(egl_version, 1, 5);
    if v15 || extension_listed(extensions, "EGL_KHR_create_context") {
        let supported = v15 || extension_listed(extensions, "EGL_EXT_create_context_robustness");
        let no_error = extension_listed(extensions, "EGL_KHR_create_context_no_error");
        let (mut rob, flag) = match robustness_exec(robustness, supported, no_error) {
            Ok(pair) => pair,
            Err(e) => {
                return Err(e);
            },
        };
        let mut out: Vec<EglAttrib> = Vec::new();
        push_four(
            &mut out,
            EglAttrib::ContextMajorVersion,
            EglAttrib::Int(version.0 as i32),
            EglAttrib::ContextMinorVersion,
            EglAttrib::Int(version.1 as i32),
        );
        out.append(&mut rob);
        let mut debug: Vec<EglAttrib> = Vec::new();
        if gl_debug && v15 {
            debug.push(EglAttrib::ContextOpenGlDebug);
            debug.push(EglAttrib::True);
        }
        out.append(&mut debug);
        let mut flags: Vec<EglAttrib> = Vec::new();
        if flag {
            flags.push(EglAttrib::ContextFlagsKhr);
            flags.push(EglAttrib::ContextOpenGlRobustAccess);
        }
        out.append(&mut flags);
        let ghost body = out@;
        out.push(EglAttrib::NoneValue);
        assert(out@ =~= body + seq![EglAttrib::NoneValue]);
        proof {
            let rob_spec = robustness_attribs(robustness, supported, no_error).unwrap().0;
            let debug_spec = if gl_debug && v15 {
                seq![EglAttrib::ContextOpenGlDebug, EglAttrib::True]
            } else {
                Seq::<EglAttrib>::empty()
            };
            let flags_spec = if flag {
                seq![EglAttrib::ContextFlagsKhr, EglAttrib::ContextOpenGlRobustAccess]
            } else {
                Seq::<EglAttrib>::empty()
            };
            assert(body =~= seq![
                EglAttrib::ContextMajorVersion,
                EglAttrib::Int(version.0 as i32),
                EglAttrib::ContextMinorVersion,
                EglAttrib::Int(version.1 as i32),
            ] + rob_spec + debug_spec + flags_spec);
        }
        Ok(out)
    } else if at_least(egl_version, 1, 3) && api == Api::OpenGlEs {
        match robustness {
            Robustness::RobustNoResetNotification | Robustness::RobustLoseContextOnReset => {
                return Err(CreationError::RobustnessNotSupported);
            },
            _ => {},
        }
        let mut out: Vec<EglAttrib> = Vec::new();
        out.push(EglAttrib::ContextClientVersion);
        out.push(EglAttrib::Int(version.0 as i32));
        out.push(EglAttrib::NoneValue);
        assert(out@ =~= seq![EglAttrib::ContextClientVersion, EglAttrib::Int(version.0 as i32), EglAttrib::NoneValue]);
        Ok(out)
    } else {
        let mut out: Vec<EglAttrib> = Vec::new();
        out.push(EglAttrib::NoneValue);
        assert(out@ =~= seq![EglAttrib::NoneValue]);
        Ok(out)
    }
}

fn robustness_exec(robustness: Robustness, supported: bool, no_error: bool) -> (r: Result<
    (Vec<EglAttrib>, bool),
    CreationError,
>)
    ensures
        match robustness_attribs(robustness, supported, no_error) {
            Ok((a, f)) => r matches Ok((v, g)) && v@ == a && g == f,
            Err(e) => r == Err::<(Vec<EglAttrib>, bool), CreationError>(e),
        },
{
    let mut out: Vec<EglAttrib> = Vec::new();
    let flag = match robustness {
        Robustness::NotRobust => false,
        Robustness::NoError => {
            if no_error {
                out.push(EglAttrib::ContextOpenGlNoErrorKhr);
                out.push(EglAttrib::Int(1));
            }
            false
        },
        Robustness::RobustNoResetNotification | Robustness::TryRobustNoResetNotification => {
            if supported {
                out.push(EglAttrib::ContextOpenGlResetNotificationStrategy);
                out.push(EglAttrib::NoResetNotification);
                true
            } else if robustness == Robustness::RobustNoResetNotification {
                return Err(CreationError::RobustnessNotSupported);
            } else {
                false
            }
        },
        Robustness::RobustLoseContextOnReset | Robustness::TryRobustLoseContextOnReset => {
            if supported {
                out.push(EglAttrib::ContextOpenGlResetNotificationStrategy);
                out.push(EglAttrib::LoseContextOnReset);
                true
            } else if robustness == Robustness::RobustLoseContextOnReset {
                return Err(CreationError::RobustnessNotSupported);
            } else {
                false
            }
        },
    };
    assert(out@ =~= robustness_attribs(robustness, supported, no_error).unwrap().0);
    Ok((out, flag))
}

/// The pixel format that a chosen configuration has, from its attributes:
/// hardware accelerated unless its caveat is `SlowConfig`, the color bits
/// the sum of the red, blue and green sizes, each cut to a byte, no
/// multisampling for 0 or 1 sample, double buffered, without stereoscopy
/// or sRGB.
pub fn pixel_format_from_config(
    slow_caveat: bool,
    red: i32,
    green: i32,
    blue: i32,
    alpha: i32,
    depth: i32,
    stencil: i32,
    samples: i32,
) -> (r: PixelFormat)
    requires
        (red as u8) + (blue as u8) + (green as u8) <= u8::MAX,
    ensures
        r == (PixelFormat {
            hardware_accelerated: !slow_caveat,
            color_bits: ((red as u8) + (blue as u8) + (green as u8)) as u8,
            alpha_bits: alpha as u8,
            depth_bits: depth as u8,
            stencil_bits: stencil as u8,
            stereoscopy: false,
            double_buffer: true,
            multisampling: if samples == 0 || samples == 1 {
                None
            } else {
                Some(samples as u16)
            },
            srgb: false,
        }),
{
    PixelFormat {
        hardware_accelerated: !slow_caveat,
        color_bits: red as u8 + blue as u8 + green as u8,
        alpha_bits: alpha as u8,
        depth_bits: depth as u8,
        stencil_bits: stencil as u8,
        stereoscopy: false,
        double_buffer: true,
        multisampling: if samples == 0 || samples == 1 {
            None
        } else {
            Some(samples as u16)
        },
        srgb: false,
    }
}

/// The next step in choosing the API of a context: bind an API and report
/// whether EGL accepted it, or the choice made.
#[derive(Debug, Clone, Copy, PartialEq, Eq)]
pub enum ApiStep {
    /// Ask EGL to bind this API (`eglBindAPI`), then call again with the
    /// result appended.
    TryBind(Api),
    /// The version requested, if any, and the API bound.
    Chosen(Option<(u8, u8)>, Api),
    /// No API that the request allows could be bound.
    Unsupported,
}

/// Binding `first`, then `second` when `first` is refused: the step that
/// follows the bind results so far.
pub open spec fn bind_in_turn(
    results: Seq<bool>,
    first: Api,
    first_version: Option<(u8, u8)>,
    second: Api,
    second_version: Option<(u8, u8)>,
) -> ApiStep {
    if results.len() == 0 {
        ApiStep::TryBind(first)
    } else if results[0] {
        ApiStep::Chosen(first_version, first)
    } else if results.len() == 1 {
        ApiStep::TryBind(second)
    } else if results[1] {
        ApiStep::Chosen(second_version, second)
    } else {
        ApiStep::Unsupported
    }
}

/// Binding `api` alone: the step that follows the bind results so far.
pub open spec fn bind_one(results: Seq<bool>, api: Api, version: Option<(u8, u8)>) -> ApiStep {
    if results.len() == 0 {
        ApiStep::TryBind(api)
    } else if results[0] {
        ApiStep::Chosen(version, api)
    } else {
        ApiStep::Unsupported
    }
}

/// How a context's API is chosen on a display of `egl_version`, given the
/// results of the binds asked for so far. From EGL 1.4 on, the latest
/// version and "OpenGL, then OpenGL ES" try OpenGL first and OpenGL ES
/// second; before 1.4 they take OpenGL ES without binding. OpenGL ES is
/// bound from EGL 1.2 on; OpenGL needs EGL 1.4; WebGL is not supported.
pub open spec fn api_step_spec(request: GlRequest, egl_version: (i32, i32), results: Seq<bool>) -> ApiStep {
    match request {
        GlRequest::Latest => if egl_at_least(egl_version, 1, 4) {
            bind_in_turn(results, Api::OpenGl, None, Api::OpenGlEs, None)
        } else {
            ApiStep::Chosen(None, Api::OpenGlEs)
        },
        GlRequest::Specific(Api::OpenGlEs, version) => if egl_at_least(egl_version, 1, 2) {
            bind_one(results, Api::OpenGlEs, Some(version))
        } else {
            ApiStep::Chosen(Some(version), Api::OpenGlEs)
        },
        GlRequest::Specific(Api::OpenGl, version) => if egl_at_least(egl_version, 1, 4) {
            bind_one(results, Api::OpenGl, Some(version))
        } else {
            ApiStep::Unsupported
        },
        GlRequest::Specific(Api::WebGl, _) => ApiStep::Unsupported,
        GlRequest::GlThenGles { opengl_version, opengles_version } => if egl_at_least(egl_version, 1, 4) {
            bind_in_turn(results, Api::OpenGl, Some(opengl_version), Api::OpenGlEs, Some(opengles_version))
        } else {
            ApiStep::Chosen(Some(opengles_version), Api::OpenGlEs)
        },
    }
}

fn bind_in_turn_exec(
    results: &[bool],
    first: Api,
    first_version: Option<(u8, u8)>,
    second: Api,
    second_version: Option<(u8, u8)>,
) -> (r: ApiStep)
    ensures
        r == bind_in_turn(results@, first, first_version, second, second_version),
{
    if results.len() == 0 {
        ApiStep::TryBind(first)
    } else if results[0] {
        ApiStep::Chosen(first_version, first)
    } else if results.len() == 1 {
        ApiStep::TryBind(second)
    } else if results[1] {
        ApiStep::Chosen(second_version, second)
    } else {
        ApiStep::Unsupported
    }
}

fn bind_one_exec(results: &[bool], api: Api, version: Option<(u8, u8)>) -> (r: ApiStep)
    ensures
        r == bind_one(results@, api, version),
{
    if results.len() == 0 {
        ApiStep::TryBind(api)
    } else if results[0] {
        ApiStep::Chosen(version, api)
    } else {
        ApiStep::Unsupported
    }
}

/// The next step in choosing the API of a context for `request` on a
/// display of `egl_version`, after the binds whose results are
/// `bind_results`, in the order they were asked for.
pub fn egl_api_step(request: GlRequest, egl_version: (i32, i32), bind_results: &[bool]) -> (r: ApiStep)
    ensures
        r == api_step_spec(request, egl_version, bind_results@),
{
    match request {
        GlRequest::Latest => {
            if at_least(egl_version, 1, 4) {
                bind_in_turn_exec(bind_results, Api::OpenGl, None, Api::OpenGlEs, None)
            } else {
                ApiStep::Chosen(None, Api::OpenGlEs)
            }
        },
        GlRequest::Specific(Api::OpenGlEs, version) => {
            if at_least(egl_version, 1, 2) {
                bind_one_exec(bind_results, Api::OpenGlEs, Some(version))
            } else {
                ApiStep::Chosen(Some(version), Api::OpenGlEs)
            }
        },
        GlRequest::Specific(Api::OpenGl, version) => {
            if at_least(egl_version, 1, 4) {
                bind_one_exec(bind_results, Api::OpenGl, Some(version))
            } else {
                ApiStep::Unsupported
            }
        },
        GlRequest::Specific(Api::WebGl, _) => ApiStep::Unsupported,
        GlRequest::GlThenGles { opengl_version, opengles_version } => {
            if at_least(egl_version, 1, 4) {
                bind_in_turn_exec(
                    bind_results,
                    Api::OpenGl,
                    Some(opengl_version),
                    Api::OpenGlEs,
                    Some(opengles_version),
                )
            } else {
                ApiStep::Chosen(Some(opengles_version), Api::OpenGlEs)
            }
        },
    }
}

} // verus!
