use alacritty::glutin::{
    x11_backend_choice, Backend, validate_version, Api, ContextBuilder, CreationError, GlProfile, GlRequest, PixelFormatRequirements,
    Robustness,
};

#[test]
fn only_gles_versions_one_to_three_are_valid() {
    assert_eq!(validate_version(1).ok(), Some(1));
    assert_eq!(validate_version(3).ok(), Some(3));
    match validate_version(0) {
        Err(CreationError::OsError(m)) => assert_eq!(
            m,
            "Specified OpenGL ES version (0) is not availble on iOS. Only 1, 2, and 3 are valid options"
        ),
        other => panic!("unexpected {:?}", other),
    }
    match validate_version(200) {
        Err(CreationError::OsError(m)) => assert_eq!(
            m,
            "Specified OpenGL ES version (200) is not availble on iOS. Only 1, 2, and 3 are valid options"
        ),
        other => panic!("unexpected {:?}", other),
    }
}

#[test]
fn creation_error_descriptions() {
    assert_eq!(CreationError::OsError("boom".to_string()).to_string(), "boom");
    assert_eq!(CreationError::NoBackendAvailable("x".to_string()).to_string(), "No backend is available");
    assert_eq!(
        CreationError::RobustnessNotSupported.to_string(),
        "You requested robustness, but it is not supported."
    );
    assert_eq!(
        CreationError::OpenGlVersionNotSupported.description(),
        "The requested OpenGL version is not supported."
    );
    assert_eq!(
        CreationError::NoAvailablePixelFormat.to_string(),
        "Couldn't find any pixel format that matches the criteria."
    );
    assert_eq!(CreationError::Window("no window".to_string()).cause(), Some("no window"));
    assert_eq!(CreationError::PlatformSpecific("p".to_string()).cause(), None);
}

#[test]
fn creation_error_messages() {
    assert_eq!(CreationError::NotSupported("vsync".to_string()).message(), "vsync: vsync");
    assert_eq!(
        CreationError::NoBackendAvailable("no egl".to_string()).message(),
        "No backend is available: no egl"
    );
    let pair = CreationError::CreationErrorPair(
        Box::new(CreationError::OsError("a".to_string())),
        Box::new(CreationError::RobustnessNotSupported),
    );
    assert_eq!(
        pair.message(),
        "Received two errors. Error 1: \"a\" Error 2: \"You requested robustness, but it is not supported.\""
    );
}

#[test]
fn context_builder_defaults_and_setters() {
    let b: ContextBuilder<u32> = ContextBuilder::new(true);
    assert!(b.gl_attr.sharing.is_none());
    assert!(matches!(b.gl_attr.version, GlRequest::Latest));
    assert!(b.gl_attr.debug);
    assert_eq!(b.gl_attr.robustness, Robustness::NotRobust);
    assert_eq!(b.pf_reqs, PixelFormatRequirements::default());
    let b = b
        .with_gl(GlRequest::Specific(Api::OpenGlEs, (3, 0)))
        .with_gl_profile(GlProfile::Core)
        .with_gl_debug_flag(false)
        .with_vsync(true)
        .with_shared_lists(7)
        .with_multisampling(4)
        .with_depth_buffer(16)
        .with_stencil_buffer(0)
        .with_pixel_format(30, 2)
        .with_stereoscopy()
        .with_srgb(true)
        .with_double_buffer(Some(false))
        .with_hardware_acceleration(None);
    assert!(matches!(b.gl_attr.version, GlRequest::Specific(Api::OpenGlEs, (3, 0))));
    assert_eq!(b.gl_attr.profile, Some(GlProfile::Core));
    assert!(!b.gl_attr.debug);
    assert!(b.gl_attr.vsync);
    assert_eq!(b.gl_attr.sharing, Some(7));
    assert_eq!(b.pf_reqs.multisampling, Some(4));
    assert_eq!(b.pf_reqs.depth_bits, Some(16));
    assert_eq!(b.pf_reqs.stencil_bits, Some(0));
    assert_eq!(b.pf_reqs.color_bits, Some(30));
    assert_eq!(b.pf_reqs.alpha_bits, Some(2));
    assert!(b.pf_reqs.stereoscopy);
    assert!(b.pf_reqs.srgb);
    assert_eq!(b.pf_reqs.double_buffer, Some(false));
    assert_eq!(b.pf_reqs.hardware_accelerated, None);
    let b = b.with_multisampling(0).with_gl_robustness(Robustness::NoError);
    assert_eq!(b.pf_reqs.multisampling, Some(0));
    assert_eq!(b.gl_attr.robustness, Robustness::NoError);
}

#[test]
fn x11_prefers_glx_and_needs_egl_for_gles() {
    assert_eq!(x11_backend_choice(GlRequest::Latest, true, true).ok(), Some(Backend::Glx));
    assert_eq!(x11_backend_choice(GlRequest::Latest, false, true).ok(), Some(Backend::Egl));
    match x11_backend_choice(GlRequest::Specific(Api::OpenGl, (3, 3)), false, false) {
        Err(CreationError::NotSupported(m)) => assert_eq!(m, "both libglx and libEGL not present"),
        _ => panic!("expected NotSupported"),
    }
    assert_eq!(x11_backend_choice(GlRequest::Specific(Api::OpenGlEs, (2, 0)), true, true).ok(), Some(Backend::Egl));
    match x11_backend_choice(GlRequest::Specific(Api::OpenGlEs, (2, 0)), true, false) {
        Err(CreationError::NotSupported(m)) => assert_eq!(m, "libEGL not present"),
        _ => panic!("expected NotSupported"),
    }
    match x11_backend_choice(GlRequest::Specific(Api::WebGl, (1, 0)), true, true) {
        Err(CreationError::NotSupported(m)) => assert_eq!(m, "requested specific without gl or gles"),
        _ => panic!("expected NotSupported"),
    }
    let both = GlRequest::GlThenGles { opengl_version: (3, 2), opengles_version: (2, 0) };
    assert_eq!(x11_backend_choice(both, true, false).ok(), Some(Backend::Glx));
}
