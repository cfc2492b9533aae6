use alacritty::build_info::{get_dependencies_string, get_features_string};
use alacritty::cli::{log_level, Arguments, LogLevel, Options};
use alacritty::event_loop::{State, WriteOutcome, Writing};
use alacritty::glutin::{
    Api, ColorFormat, ContextError, GlAttributes, GlRequest, PixelFormatRequirements, ReleaseBehavior,
    Robustness,
};
use alacritty::index::{Column, Line};
use std::path::PathBuf;

#[test]
fn build_descriptions_join_with_commas() {
    assert_eq!(get_dependencies_string(&[("vte", "0.3"), ("log", "0.4")]), "vte 0.3, log 0.4");
    assert_eq!(get_dependencies_string(&[]), "");
    assert_eq!(get_features_string(&["a", "b", "c"]), "a, b, c");
}

fn args() -> Arguments {
    Arguments {
        ref_test: false,
        print_events: false,
        live_config_reload: false,
        no_live_config_reload: false,
        persistent_logging: false,
        dimensions: None,
        title: None,
        class: None,
        quiet: 0,
        verbose: 0,
        working_directory: None,
        config_file: None,
        command: None,
    }
}

#[test]
fn log_level_counts() {
    assert_eq!(log_level(0, 0, false), LogLevel::Warn);
    assert_eq!(log_level(1, 0, false), LogLevel::Error);
    assert_eq!(log_level(5, 0, false), LogLevel::Off);
    assert_eq!(log_level(0, 0, true), LogLevel::Info);
    assert_eq!(log_level(0, 2, false), LogLevel::Debug);
    assert_eq!(log_level(0, 7, false), LogLevel::Trace);
}

#[test]
fn options_from_arguments() {
    let mut a = args();
    a.dimensions = Some(vec!["80".into(), "24".into()]);
    a.no_live_config_reload = true;
    a.config_file = Some("/tmp/a.yml".into());
    a.command = Some(vec!["htop".into(), "-d".into(), "5".into()]);
    let o = Options::from_arguments(a);
    let d = o.dimensions().unwrap();
    assert_eq!(d.columns_u32(), 80);
    assert_eq!(d.lines_u32(), 24);
    assert_eq!(o.live_config_reload, Some(false));
    assert_eq!(o.config_path(), Some(&PathBuf::from("/tmp/a.yml")));
    let shell = o.command().unwrap();
    assert_eq!(shell.program(), "htop");
    assert_eq!(shell.args().len(), 2);

    let mut b = args();
    b.dimensions = Some(vec!["80".into(), "x".into()]);
    let o = Options::from_arguments(b);
    assert!(o.dimensions().is_none());
    assert!(o.command().is_none());
    assert_eq!(o.log_level, LogLevel::Warn);
    let _ = (Line(0), Column(0));
}

#[test]
fn write_queue_in_order() {
    let mut state = State::new();
    assert!(!state.needs_write());
    state.push_input(b"ab".to_vec());
    state.push_input(b"c".to_vec());
    assert!(state.needs_write());
    state.ensure_next();
    let mut current = state.take_current().unwrap();
    assert_eq!(current.remaining_bytes(), b"ab");
    current.advance(1);
    assert_eq!(current.remaining_bytes(), b"b");
    assert!(!current.finished());
    current.advance(1);
    assert!(current.finished());
    state.goto_next();
    let next = state.take_current().unwrap();
    assert_eq!(next.remaining_bytes(), b"c");
    state.set_current(Some(Writing::new(b"d".to_vec())));
    assert!(state.needs_write());
}

#[test]
fn pty_writes_deliver_bytes_in_order() {
    let mut state = State::new();
    state.push_input(b"hello".to_vec());
    state.push_input(b"!".to_vec());
    state.ensure_next();
    assert_eq!(state.current_bytes(), Some(&b"hello"[..]));
    assert!(state.record_write(WriteOutcome::Wrote(2)));
    assert_eq!(state.current_bytes(), Some(&b"llo"[..]));
    assert!(!state.record_write(WriteOutcome::WouldBlock));
    assert_eq!(state.current_bytes(), Some(&b"llo"[..]));
    assert!(!state.record_write(WriteOutcome::Wrote(0)));
    assert_eq!(state.current_bytes(), Some(&b"llo"[..]));
    assert!(state.record_write(WriteOutcome::Wrote(3)));
    assert_eq!(state.current_bytes(), Some(&b"!"[..]));
    assert!(state.record_write(WriteOutcome::Wrote(1)));
    assert_eq!(state.current_bytes(), None);
    assert!(!state.needs_write());
    assert!(!state.record_write(WriteOutcome::Wrote(1)));
}

#[test]
fn gl_requests() {
    assert_eq!(GlRequest::Specific(Api::OpenGl, (3, 3)).to_gl_version(), Some((3, 3)));
    assert_eq!(GlRequest::Specific(Api::OpenGlEs, (2, 0)).to_gl_version(), None);
    assert_eq!(
        GlRequest::GlThenGles { opengl_version: (3, 2), opengles_version: (2, 0) }.to_gl_version(),
        Some((3, 2))
    );
    assert_eq!(GlRequest::Latest.to_gl_version(), None);
    let req = PixelFormatRequirements::default();
    assert_eq!(req.color_bits, Some(24));
    assert_eq!(req.release_behavior, ReleaseBehavior::Flush);
    assert_eq!(ContextError::ContextLost.to_string(), "Context lost");
    assert_eq!(ContextError::OsError("boom".into()).to_string(), "boom");
    assert_eq!(ColorFormat::Rgb565.color_bits(), 16);
    assert_eq!(ColorFormat::Srgba8888.alpha_bits(), 8);
    assert!(ColorFormat::Srgba8888.srgb());
    let attrs = GlAttributes {
        sharing: Some(2u32),
        version: GlRequest::Latest,
        profile: None,
        debug: false,
        robustness: Robustness::NotRobust,
        vsync: true,
    };
    let mapped = attrs.map_sharing(|x| x * 10);
    assert_eq!(mapped.sharing, Some(20u32));
    assert!(mapped.vsync);
}
