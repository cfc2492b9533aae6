use alacritty::ansi::{Color, NamedColor};
use alacritty::cli::Options;
use alacritty::config::{Config, CursorColors, CursorStyle, Deprecation, Delta, Dimensions};
use alacritty::index::{Column, Line};
use alacritty::Rgb;

#[test]
fn default_config_values() {
    let c = Config::default();
    assert_eq!(c.key_bindings().len(), 113);
    assert_eq!(c.mouse_bindings().len(), 1);
    assert_eq!(c.tabspaces(), 8);
    assert!(c.dynamic_title());
    assert!(c.live_config_reload());
    assert!(c.alt_send_esc());
    assert!(c.draw_bold_text_with_bright_colors());
    assert!(!c.render_timer());
    assert!(!c.persistent_logging());
    assert!(!c.use_thin_strokes());
    assert!(c.env().is_empty());
    assert!(c.path().is_none());
    assert!(c.shell().is_none());
    assert_eq!(c.cursor_style(), CursorStyle::Block);
    assert!(c.unfocused_hollow_cursor());
    assert!(!c.hide_mouse_when_typing());
    assert_eq!(c.padding(), Delta { x: 2, y: 2 });
    assert_eq!(c.cursor_text_color(), None);
    assert_eq!(c.cursor_cursor_color(), None);
    assert_eq!(c.scrolling().history, 10000);
}

#[test]
fn deprecated_options_take_precedence() {
    let mut c = Config::default();
    c.cursor_style = Some(CursorStyle::Beam);
    c.unfocused_hollow_cursor = Some(false);
    c.hide_cursor_when_typing = Some(true);
    c.padding = Some(Delta { x: 7, y: 9 });
    c.dimensions = Some(Dimensions::new(Column(80), Line(24)));
    assert_eq!(c.cursor_style(), CursorStyle::Beam);
    assert!(!c.unfocused_hollow_cursor());
    assert!(c.hide_mouse_when_typing());
    assert_eq!(c.padding(), Delta { x: 7, y: 9 });
    assert_eq!(c.dimensions().columns_u32(), 80);
    assert_eq!(c.dimensions().lines_u32(), 24);
}

#[test]
fn cursor_colors_are_named() {
    let mut c = Config::default();
    c.colors.cursor = CursorColors { text: Some(Rgb { r: 1, g: 2, b: 3 }), cursor: Some(Rgb { r: 4, g: 5, b: 6 }) };
    assert_eq!(c.cursor_text_color(), Some(Color::Named(NamedColor::CursorForeground)));
    assert_eq!(c.cursor_cursor_color(), Some(Color::Named(NamedColor::CursorBackground)));
}

#[test]
fn title_option_turns_dynamic_title_off() {
    let c = Config::default().update_dynamic_title(&Options::default());
    assert!(c.dynamic_title());
    let mut options = Options::default();
    options.title = Some("foo".to_owned());
    let c = Config::default().update_dynamic_title(&options);
    assert!(!c.dynamic_title());
}

#[test]
fn set_history_changes_only_history() {
    let mut c = Config::default();
    c.set_history(42);
    assert_eq!(c.scrolling().history, 42);
    assert_eq!(c.scrolling().multiplier, 3);
}

#[test]
fn deprecations_are_listed_in_order() {
    let mut c = Config::default();
    assert!(c.deprecation_warnings().is_empty());
    c.colors.cursor = CursorColors { text: Some(Rgb { r: 1, g: 1, b: 1 }), cursor: None };
    c.custom_cursor_colors = Some(false);
    c.dimensions = Some(Dimensions::new(Column(1), Line(1)));
    c.unfocused_hollow_cursor = Some(true);
    c.mouse.faux_scrollback_lines = Some(3);
    let w = c.deprecation_warnings();
    assert_eq!(
        w,
        vec![
            Deprecation::Dimensions,
            Deprecation::FauxScrollbackLines,
            Deprecation::CustomCursorColors,
            Deprecation::UnfocusedHollowCursor
        ]
    );
    assert_eq!(c.colors.cursor, CursorColors { text: None, cursor: None });
    let mut d = Config::default();
    d.colors.cursor = CursorColors { text: Some(Rgb { r: 1, g: 1, b: 1 }), cursor: None };
    d.custom_cursor_colors = Some(true);
    assert_eq!(d.deprecation_warnings(), vec![Deprecation::CustomCursorColors]);
    assert_eq!(d.colors.cursor.text, Some(Rgb { r: 1, g: 1, b: 1 }));
}
