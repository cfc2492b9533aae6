use alacritty::egl::{egl_api_step, egl_config_descriptor, egl_context_attributes, pixel_format_from_config, ApiStep};
use alacritty::glutin::{Api, CreationError, GlRequest, PixelFormatRequirements, Robustness};

use alacritty::egl::EglAttrib::{
    ColorBufferType, RgbBuffer, SurfaceType, WindowBit, RenderableType, Conformant, OpenGlEs2Bit, OpenGlBit, ConfigCaveat, SlowConfig, RedSize, GreenSize, BlueSize, AlphaSize, DepthSize, StencilSize, Samples, ContextMajorVersion, ContextMinorVersion, ContextOpenGlNoErrorKhr, ContextOpenGlResetNotificationStrategy, LoseContextOnReset, ContextOpenGlDebug, True, ContextFlagsKhr, ContextOpenGlRobustAccess, ContextClientVersion, NoneValue, Int,
};

#[test]
fn config_descriptor_for_default_requirements() {
    let reqs = PixelFormatRequirements::default();
    let d = egl_config_descriptor((1, 4), Api::OpenGl, Some((3, 3)), &reqs).ok().unwrap();
    assert_eq!(
        d,
        vec![
            ColorBufferType, RgbBuffer, SurfaceType, WindowBit, RenderableType, OpenGlBit, Conformant,
            OpenGlBit, ConfigCaveat, NoneValue, RedSize, Int(8), GreenSize, Int(8), BlueSize, Int(8),
            AlphaSize, Int(8), DepthSize, Int(24), StencilSize, Int(8), NoneValue,
        ]
    );
}

#[test]
fn config_descriptor_splits_color_and_asks_samples() {
    let mut reqs = PixelFormatRequirements::default();
    reqs.hardware_accelerated = Some(false);
    reqs.color_bits = Some(16);
    reqs.alpha_bits = None;
    reqs.depth_bits = None;
    reqs.stencil_bits = None;
    reqs.multisampling = Some(4);
    let d = egl_config_descriptor((1, 1), Api::OpenGlEs, Some((1, 0)), &reqs).ok().unwrap();
    assert_eq!(
        d,
        vec![
            SurfaceType, WindowBit, ConfigCaveat, SlowConfig, RedSize, Int(5), GreenSize, Int(6), BlueSize,
            Int(5), Samples, Int(4), NoneValue,
        ]
    );
    let d = egl_config_descriptor((1, 3), Api::OpenGlEs, Some((2, 0)), &reqs).ok().unwrap();
    assert_eq!(&d[4..8], &[RenderableType, OpenGlEs2Bit, Conformant, OpenGlEs2Bit]);
}

#[test]
fn config_descriptor_refusals() {
    let reqs = PixelFormatRequirements::default();
    assert!(matches!(
        egl_config_descriptor((1, 2), Api::OpenGl, None, &reqs),
        Err(CreationError::NoAvailablePixelFormat)
    ));
    assert!(matches!(
        egl_config_descriptor((1, 2), Api::OpenGlEs, Some((3, 0)), &reqs),
        Err(CreationError::NoAvailablePixelFormat)
    ));
    let mut double = PixelFormatRequirements::default();
    double.double_buffer = Some(true);
    assert!(matches!(
        egl_config_descriptor((1, 5), Api::OpenGl, None, &double),
        Err(CreationError::NoAvailablePixelFormat)
    ));
    let mut stereo = PixelFormatRequirements::default();
    stereo.stereoscopy = true;
    assert!(matches!(
        egl_config_descriptor((1, 5), Api::OpenGl, None, &stereo),
        Err(CreationError::NoAvailablePixelFormat)
    ));
}

#[test]
fn context_attributes_with_create_context() {
    let a = egl_context_attributes((1, 5), &[], Api::OpenGl, (3, 3), true, Robustness::TryRobustLoseContextOnReset)
        .ok()
        .unwrap();
    assert_eq!(
        a,
        vec![
            ContextMajorVersion, Int(3), ContextMinorVersion, Int(3), ContextOpenGlResetNotificationStrategy,
            LoseContextOnReset, ContextOpenGlDebug, True, ContextFlagsKhr, ContextOpenGlRobustAccess, NoneValue,
        ]
    );
    let exts = vec!["EGL_KHR_create_context".to_string(), "EGL_KHR_create_context_no_error".to_string()];
    let a = egl_context_attributes((1, 4), &exts, Api::OpenGl, (2, 1), true, Robustness::NoError).ok().unwrap();
    assert_eq!(a, vec![ContextMajorVersion, Int(2), ContextMinorVersion, Int(1), ContextOpenGlNoErrorKhr, Int(1), NoneValue]);
    let only = vec!["EGL_KHR_create_context".to_string()];
    assert!(matches!(
        egl_context_attributes((1, 4), &only, Api::OpenGl, (3, 0), false, Robustness::RobustNoResetNotification),
        Err(CreationError::RobustnessNotSupported)
    ));
    let a = egl_context_attributes((1, 4), &only, Api::OpenGl, (3, 0), false, Robustness::TryRobustNoResetNotification)
        .ok()
        .unwrap();
    assert_eq!(a, vec![ContextMajorVersion, Int(3), ContextMinorVersion, Int(0), NoneValue]);
}

#[test]
fn context_attributes_without_create_context() {
    let a = egl_context_attributes((1, 3), &[], Api::OpenGlEs, (2, 0), false, Robustness::NotRobust).ok().unwrap();
    assert_eq!(a, vec![ContextClientVersion, Int(2), NoneValue]);
    assert!(matches!(
        egl_context_attributes((1, 4), &[], Api::OpenGlEs, (2, 0), false, Robustness::RobustLoseContextOnReset),
        Err(CreationError::RobustnessNotSupported)
    ));
    let a = egl_context_attributes((1, 2), &[], Api::OpenGl, (3, 0), true, Robustness::RobustNoResetNotification)
        .ok()
        .unwrap();
    assert_eq!(a, vec![NoneValue]);
}

#[test]
fn pixel_format_of_a_config() {
    let f = pixel_format_from_config(false, 8, 8, 8, 8, 24, 8, 1);
    assert!(f.hardware_accelerated);
    assert_eq!(f.color_bits, 24);
    assert_eq!(f.alpha_bits, 8);
    assert_eq!(f.depth_bits, 24);
    assert_eq!(f.stencil_bits, 8);
    assert_eq!(f.multisampling, None);
    assert!(f.double_buffer);
    let f = pixel_format_from_config(true, 5, 6, 5, 0, 16, 0, 4);
    assert!(!f.hardware_accelerated);
    assert_eq!(f.color_bits, 16);
    assert_eq!(f.multisampling, Some(4));
}

#[test]
fn api_step_latest_tries_gl_then_gles() {
    assert_eq!(egl_api_step(GlRequest::Latest, (1, 4), &[]), ApiStep::TryBind(Api::OpenGl));
    assert_eq!(egl_api_step(GlRequest::Latest, (1, 4), &[true]), ApiStep::Chosen(None, Api::OpenGl));
    assert_eq!(egl_api_step(GlRequest::Latest, (1, 4), &[false]), ApiStep::TryBind(Api::OpenGlEs));
    assert_eq!(egl_api_step(GlRequest::Latest, (1, 5), &[false, true]), ApiStep::Chosen(None, Api::OpenGlEs));
    assert_eq!(egl_api_step(GlRequest::Latest, (1, 4), &[false, false]), ApiStep::Unsupported);
    assert_eq!(egl_api_step(GlRequest::Latest, (1, 3), &[]), ApiStep::Chosen(None, Api::OpenGlEs));
}

#[test]
fn api_step_specific_requests() {
    let es = GlRequest::Specific(Api::OpenGlEs, (2, 0));
    assert_eq!(egl_api_step(es, (1, 2), &[]), ApiStep::TryBind(Api::OpenGlEs));
    assert_eq!(egl_api_step(es, (1, 2), &[true]), ApiStep::Chosen(Some((2, 0)), Api::OpenGlEs));
    assert_eq!(egl_api_step(es, (1, 2), &[false]), ApiStep::Unsupported);
    assert_eq!(egl_api_step(es, (1, 1), &[]), ApiStep::Chosen(Some((2, 0)), Api::OpenGlEs));
    let gl = GlRequest::Specific(Api::OpenGl, (3, 3));
    assert_eq!(egl_api_step(gl, (1, 3), &[]), ApiStep::Unsupported);
    assert_eq!(egl_api_step(gl, (1, 4), &[]), ApiStep::TryBind(Api::OpenGl));
    assert_eq!(egl_api_step(gl, (1, 4), &[true]), ApiStep::Chosen(Some((3, 3)), Api::OpenGl));
    assert_eq!(egl_api_step(GlRequest::Specific(Api::WebGl, (1, 0)), (1, 5), &[]), ApiStep::Unsupported);
    let both = GlRequest::GlThenGles { opengl_version: (3, 2), opengles_version: (2, 0) };
    assert_eq!(egl_api_step(both, (1, 4), &[false, true]), ApiStep::Chosen(Some((2, 0)), Api::OpenGlEs));
    assert_eq!(egl_api_step(both, (1, 4), &[true]), ApiStep::Chosen(Some((3, 2)), Api::OpenGl));
    assert_eq!(egl_api_step(both, (1, 0), &[]), ApiStep::Chosen(Some((2, 0)), Api::OpenGlEs));
}
