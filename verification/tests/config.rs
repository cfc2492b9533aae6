use alacritty::config::bindings::{
    default_key_bindings, default_mouse_bindings, merge_bindings, platform_key_bindings,
};
use alacritty::config::parse::{
    key_from_scancode, parse_action, parse_binding_field, parse_decorations, parse_modes,
    parse_modifiers, parse_mouse_button, parse_rgb, raw_binding_from_entries,
    raw_binding_from_fields, BindingEntry, BindingError, BindingField, ModeWrapper,
};
use alacritty::config::VirtualKeyCode;
use alacritty::config::{default_bold_desc, default_faux_scrollback_lines, default_italic_desc, true_bool};
use alacritty::config::{
    checked_color_index, clamp_scrolling_history, default_scrolling_history, CommandWrapper,
    CursorOrPrimaryColors, Decorations, Dimensions, Font, FontDescription, Key, Padding,
    Scrolling, SecondaryFontDescription, Shell, Size, VisualBellAnimation, VisualBellConfig,
    WindowConfig,
};
use alacritty::index::{Column, Line};
use alacritty::input::{Action, Binding, ModifiersState, MouseButton, TermMode};
use alacritty::Rgb;
use std::time::Duration;

fn mods(shift: bool, ctrl: bool, alt: bool, logo: bool) -> ModifiersState {
    ModifiersState { shift, ctrl, alt, logo }
}

#[test]
fn parses_modifier_lists() {
    assert_eq!(parse_modifiers("Control|Shift"), mods(true, true, false, false));
    assert_eq!(parse_modifiers(" Command | Alt "), mods(false, false, true, true));
    assert_eq!(parse_modifiers("Super|Option"), mods(false, false, true, true));
    assert_eq!(parse_modifiers("None"), mods(false, false, false, false));
    assert_eq!(parse_modifiers("Hyper|Shift"), mods(true, false, false, false));
    assert_eq!(parse_modifiers(""), mods(false, false, false, false));
}

#[test]
fn parses_actions() {
    assert_eq!(parse_action("Paste").map(|w| w.into_inner()), Ok(Action::Paste));
    assert_eq!(parse_action("None").map(|w| w.into_inner()), Ok(Action::Nothing));
    assert_eq!(parse_action("SpawnNewInstance").map(|w| w.into_inner()), Ok(Action::SpawnNewInstance));
    assert!(parse_action("paste").is_err());
    assert!(parse_action(" Paste").is_err());
}

#[test]
fn parses_modes() {
    let m = parse_modes("~AppCursor|Alt");
    assert_eq!(m, ModeWrapper { mode: TermMode { bits: 4096 }, not_mode: TermMode { bits: 2 } });
    let m = parse_modes("AppKeypad | ~Alt | Bogus");
    assert_eq!(m, ModeWrapper { mode: TermMode { bits: 4 }, not_mode: TermMode { bits: 4096 } });
}

#[test]
fn parses_mouse_buttons() {
    assert_eq!(parse_mouse_button("Left"), Some(MouseButton::Left));
    assert_eq!(parse_mouse_button("Middle"), Some(MouseButton::Middle));
    assert_eq!(parse_mouse_button("4"), Some(MouseButton::Other(4)));
    assert_eq!(parse_mouse_button("+255"), Some(MouseButton::Other(255)));
    assert_eq!(parse_mouse_button("256"), None);
    assert_eq!(parse_mouse_button("-1"), None);
    assert_eq!(parse_mouse_button("left"), None);
    assert_eq!(parse_mouse_button(""), None);
}

#[test]
fn parses_decorations() {
    assert_eq!(parse_decorations("none"), Decorations::NoDecorations);
    assert_eq!(parse_decorations("NONE"), Decorations::NoDecorations);
    assert_eq!(parse_decorations("False"), Decorations::NoDecorations);
    assert_eq!(parse_decorations("full"), Decorations::Full);
    assert_eq!(parse_decorations("transparent"), Decorations::Full);
    assert_eq!(parse_decorations("bogus"), Decorations::Full);
}

#[test]
fn parses_hex_colors() {
    assert_eq!(parse_rgb("0xff00ff"), Some(Rgb { r: 255, g: 0, b: 255 }));
    assert_eq!(parse_rgb("#1A2b3C"), Some(Rgb { r: 0x1a, g: 0x2b, b: 0x3c }));
    assert_eq!(parse_rgb("0xff00ffzz"), Some(Rgb { r: 255, g: 0, b: 255 }));
    assert_eq!(parse_rgb("0y000000"), None);
    assert_eq!(parse_rgb("#12345"), None);
    assert_eq!(parse_rgb("#12345g"), None);
}

#[test]
fn binding_fields_make_bindings() {
    let raw = raw_binding_from_fields(
        Some(Key::A),
        None,
        Some(mods(false, true, false, false)),
        None,
        Some(Action::Copy),
        None,
        None,
    )
    .ok()
    .unwrap();
    let binding = raw.into_key_binding().ok().unwrap();
    assert_eq!(binding.trigger, Key::A);
    assert_eq!(binding.action, Action::Copy);
    assert_eq!(binding.mods, mods(false, true, false, false));
    assert_eq!(binding.mode, TermMode { bits: 0 });

    let raw = raw_binding_from_fields(
        None,
        Some(MouseButton::Right),
        None,
        None,
        None,
        None,
        Some(CommandWrapper::WithArgs { program: "xterm".into(), args: vec!["-e".into()] }),
    )
    .ok()
    .unwrap();
    let binding = raw.into_mouse_binding().ok().unwrap();
    assert_eq!(binding.action, Action::Command("xterm".into(), vec!["-e".into()]));
}

#[test]
fn binding_field_errors() {
    let none = raw_binding_from_fields(Some(Key::A), None, None, None, None, None, None);
    assert_eq!(none.err(), Some(BindingError::NoAction));
    let many = raw_binding_from_fields(
        Some(Key::A),
        None,
        None,
        None,
        Some(Action::Copy),
        Some("x".into()),
        None,
    );
    assert_eq!(many.err(), Some(BindingError::ManyActions));
    let no_trigger = raw_binding_from_fields(None, None, None, None, Some(Action::Copy), None, None);
    assert_eq!(no_trigger.err(), Some(BindingError::NoTrigger));
    assert_eq!(key_from_scancode(1 << 32).err(), Some(BindingError::ScancodeTooBig));
    assert_eq!(key_from_scancode(38).ok(), Some(Key::Scancode(38)));
    assert_eq!(parse_binding_field("chars"), Some(BindingField::Chars));
    assert_eq!(parse_binding_field("Chars"), None);
}

#[test]
fn default_bindings_table() {
    let keys = default_key_bindings();
    assert_eq!(keys.len(), 113);
    assert_eq!(keys[0].trigger, Key::Paste);
    assert_eq!(keys[5].action, Action::Esc("\x1bOH".into()));
    assert_eq!(keys[5].mode, TermMode { bits: 2 });
    assert_eq!(keys[105].action, Action::Esc("\n".into()));
    assert_eq!(keys[106].trigger, Key::V);
    assert_eq!(keys[106].mods, mods(true, true, false, false));
    assert_eq!(platform_key_bindings().len(), 7);
    let mouse = default_mouse_bindings();
    assert_eq!(mouse.len(), 1);
    assert_eq!(mouse[0].trigger, MouseButton::Middle);
    assert_eq!(mouse[0].action, Action::PasteSelection);
}

fn binding(trigger: Key, m: ModifiersState, action: Action) -> Binding<Key> {
    Binding { mods: m, action, mode: TermMode { bits: 0 }, notmode: TermMode { bits: 0 }, trigger }
}

#[test]
fn configured_bindings_replace_defaults() {
    let user = vec![binding(Key::L, mods(false, true, false, false), Action::Esc("x".into()))];
    let defaults = vec![
        binding(Key::L, mods(false, true, false, false), Action::ClearLogNotice),
        binding(Key::L, mods(false, false, false, false), Action::Copy),
        binding(Key::Home, mods(false, false, false, false), Action::Paste),
    ];
    let merged = merge_bindings(user, defaults);
    assert_eq!(merged.len(), 3);
    assert_eq!(merged[0].action, Action::Esc("x".into()));
    assert_eq!(merged[1].action, Action::Copy);
    assert_eq!(merged[2].trigger, Key::Home);
}

#[test]
fn scrolling_history_is_clamped() {
    assert_eq!(clamp_scrolling_history(200_000), 100_000);
    assert_eq!(clamp_scrolling_history(500), 500);
    assert_eq!(default_scrolling_history(), 10_000);
    assert_eq!(Scrolling::default().multiplier, 3);
    assert_eq!(checked_color_index(3), 0);
    assert_eq!(checked_color_index(16), 16);
}

#[test]
fn config_values() {
    let dims = Dimensions::new(Column(80), Line(24));
    assert_eq!(dims.columns_u32(), 80);
    assert_eq!(dims.lines_u32(), 24);
    let padding = Padding::new(3, 4, 5, 6);
    assert_eq!(padding.horizontal(), 10);
    assert_eq!(padding.vertical(), 8);
    let mut old_style = Padding::with_deprecated(2, 2, 2, 2, Some(7), None);
    old_style.apply_deprecated_padding();
    assert_eq!((old_style.top, old_style.right, old_style.bottom, old_style.left), (2, 7, 2, 7));
    assert_eq!(Padding::default().top, 2);
    let shell = Shell::new_with_args("zsh".into(), vec!["-l".into()]);
    assert_eq!(shell.program(), "zsh");
    assert_eq!(shell.args(), &["-l".to_string()][..]);
    assert_eq!(Shell::new("sh".into()).args().len(), 0);
    let bell = VisualBellConfig::default();
    assert_eq!(bell.animation(), VisualBellAnimation::EaseOutExpo);
    assert_eq!(bell.duration(), Duration::from_millis(0));
    assert_eq!(bell.color(), Rgb { r: 255, g: 255, b: 255 });
    let bell = VisualBellConfig::new(VisualBellAnimation::Linear, 150, Rgb { r: 1, g: 2, b: 3 });
    assert_eq!(bell.duration(), Duration::from_millis(150));
    assert_eq!(WindowConfig::default().decorations(), Decorations::Full);
    assert!(!WindowConfig::default().dynamic_padding());
    let cmd = CommandWrapper::Just("open".into());
    assert_eq!(cmd.program(), "open");
    assert_eq!(cmd.args().len(), 0);
}

#[test]
fn font_faces_fall_back_to_normal() {
    let font = Font::default();
    assert_eq!(font.size(), Size(22));
    assert_eq!(font.italic().family, "monospace");
    let font = Font::new(
        FontDescription::new_with_family("Hack".into()),
        SecondaryFontDescription::new(Some("Hack Italic".into()), None),
        SecondaryFontDescription::new(None, Some("Bold".into())),
        Size(20),
        Default::default(),
        Default::default(),
    );
    assert_eq!(font.italic().family, "Hack Italic");
    assert_eq!(font.bold().family, "Hack");
    assert_eq!(font.bold().style, Some("Bold".to_string()));
    let bigger = font.with_size(Size(30));
    assert_eq!(bigger.size(), Size(30));
    assert_eq!(bigger.normal().family, "Hack");
}

#[test]
fn cursor_colors_from_primary() {
    let fg = Rgb { r: 1, g: 1, b: 1 };
    let bg = Rgb { r: 2, g: 2, b: 2 };
    let colors = CursorOrPrimaryColors::Primary { foreground: fg, background: bg }.into_cursor_colors();
    assert_eq!(colors.text, Some(bg));
    assert_eq!(colors.cursor, Some(fg));
}

#[test]
fn windowing_keys_round_trip() {
    assert_eq!(Key::from_glutin_input(VirtualKeyCode::F5), Key::F5);
    assert_eq!(Key::from_glutin_input(VirtualKeyCode::Cut), Key::Cut);
    assert_eq!(Key::NumpadEnter.to_glutin_key(), Some(VirtualKeyCode::NumpadEnter));
    assert_eq!(Key::Scancode(3).to_glutin_key(), None);
    for v in [VirtualKeyCode::A, VirtualKeyCode::Key0, VirtualKeyCode::Yen] {
        assert_eq!(Key::from_glutin_input(v).to_glutin_key(), Some(v));
    }
}

#[test]
fn font_face_and_flag_defaults() {
    let bold = default_bold_desc();
    assert_eq!(bold.family, "monospace");
    assert_eq!(bold.style, None);
    let italic = default_italic_desc();
    assert_eq!(italic.family, "monospace");
    assert_eq!(italic.style, None);
    assert!(true_bool());
    assert_eq!(default_faux_scrollback_lines(), 1);
}

#[test]
fn binding_entries_refuse_repeated_fields() {
    let raw = raw_binding_from_entries(vec![
        BindingEntry::Scancode(38),
        BindingEntry::Mods(mods(true, false, false, false)),
        BindingEntry::Chars("x".into()),
    ])
    .ok()
    .unwrap();
    assert_eq!(raw.key, Some(Key::Scancode(38)));
    assert_eq!(raw.action, Action::Esc("x".into()));
    assert_eq!(raw.mods, mods(true, false, false, false));

    let twice = raw_binding_from_entries(vec![
        BindingEntry::Key(Key::A),
        BindingEntry::Action(Action::Copy),
        BindingEntry::Key(Key::B),
    ]);
    assert_eq!(twice.err(), Some(BindingError::DuplicateField(BindingField::Key)));
    let actions = raw_binding_from_entries(vec![
        BindingEntry::Action(Action::Copy),
        BindingEntry::Action(Action::Paste),
    ]);
    assert_eq!(actions.err(), Some(BindingError::DuplicateField(BindingField::Action)));
    let too_big = raw_binding_from_entries(vec![BindingEntry::Scancode(1 << 32)]);
    assert_eq!(too_big.err(), Some(BindingError::ScancodeTooBig));
    let mouse_after_chars = raw_binding_from_entries(vec![
        BindingEntry::Chars("x".into()),
        BindingEntry::Mouse(MouseButton::Left),
    ]);
    assert_eq!(mouse_after_chars.err(), Some(BindingError::DuplicateField(BindingField::Mouse)));
    let two_mice = raw_binding_from_entries(vec![
        BindingEntry::Mouse(MouseButton::Left),
        BindingEntry::Mouse(MouseButton::Right),
        BindingEntry::Action(Action::Copy),
    ])
    .ok()
    .unwrap();
    assert_eq!(two_mice.mouse, Some(MouseButton::Right));
    let empty = raw_binding_from_entries(vec![]);
    assert_eq!(empty.err(), Some(BindingError::NoAction));
}

#[test]
fn rgb_reads_back_its_hex_text() {
    for &(r, g, b) in &[(0u8, 0u8, 0u8), (255, 255, 255), (30, 30, 46), (1, 160, 15)] {
        let text = format!("#{:02x}{:02x}{:02x}", r, g, b);
        assert_eq!(parse_rgb(&text), Some(Rgb { r, g, b }));
    }
}
