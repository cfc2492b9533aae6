use alacritty::config::Key;
use alacritty::event::ClickState;
use alacritty::input::{
    button_code, on_mouse_moved, on_mouse_press, pixel_scroll, MoveEffect, on_mouse_release, paste_bytes, process_key, Action, Binding, KeyState,
    ModifiersState, MouseButton, PressEffect, ReleaseEffect, TermMode,
};

fn mods(shift: bool, ctrl: bool, alt: bool, logo: bool) -> ModifiersState {
    ModifiersState { shift, ctrl, alt, logo }
}

fn binding(mode: u16, notmode: u16, m: ModifiersState) -> Binding<Key> {
    Binding {
        mods: m,
        action: Action::Nothing,
        mode: TermMode { bits: mode },
        notmode: TermMode { bits: notmode },
        trigger: Key::Home,
    }
}

#[test]
fn bindings_trigger_on_key_mode_and_mods() {
    let b = binding(2, 0, mods(false, false, false, false));
    let none = mods(false, false, false, false);
    assert!(b.is_triggered_by(TermMode { bits: 2 }, none, &Key::Home, false));
    assert!(!b.is_triggered_by(TermMode { bits: 0 }, none, &Key::Home, false));
    assert!(!b.is_triggered_by(TermMode { bits: 2 }, none, &Key::End, false));
    let excl = binding(0, 2, none);
    assert!(excl.is_triggered_by(TermMode { bits: 0 }, none, &Key::Home, false));
    assert!(!excl.is_triggered_by(TermMode { bits: 2 }, none, &Key::Home, false));
}

#[test]
fn relaxed_modifiers_ignore_surplus() {
    let b = binding(0, 0, mods(false, true, false, false));
    assert!(b.mods_match(mods(true, true, false, false), true));
    assert!(!b.mods_match(mods(true, true, false, false), false));
    assert!(!b.mods_match(mods(true, false, false, false), true));
    assert!(mods(false, false, false, false).relaxed_eq(mods(true, true, true, true)));
}

#[test]
fn triggers_match_ignores_action() {
    let mut a = binding(0, 0, mods(false, false, false, false));
    let b = binding(0, 0, mods(false, false, false, false));
    a.action = Action::Copy;
    assert!(a.triggers_match(&b));
    let c = binding(2, 0, mods(false, false, false, false));
    assert!(!a.triggers_match(&c));
    let m = Binding::<MouseButton>::default();
    assert!(m.triggers_match(&Binding::<MouseButton>::default()));
}

#[test]
fn bracketed_paste_strips_escapes() {
    let out = paste_bytes(b"a\x1bb\r\n", true);
    assert_eq!(out, b"\x1b[200~ab\r\n\x1b[201~".to_vec());
}

#[test]
fn plain_paste_turns_newlines_into_returns() {
    assert_eq!(paste_bytes(b"a\r\nb\nc\r", false), b"a\rb\rc\r".to_vec());
    assert_eq!(paste_bytes(b"\r\r\n", false), b"\r\r".to_vec());
    assert_eq!(paste_bytes(b"", false), Vec::<u8>::new());
}

#[test]
fn term_mode_sets() {
    let m = TermMode { bits: 2 }.union(TermMode { bits: 16 });
    assert!(m.contains(TermMode { bits: 16 }));
    assert!(!m.contains(TermMode { bits: 18 | 4 }));
    assert!(m.intersects(TermMode { bits: 6 }));
    assert!(TermMode::empty().is_empty());
}

use alacritty::index::{Column, Line};
use alacritty::input::{
    focus_report, mouse_mods_code, mouse_report, normal_mouse_report, received_char_bytes,
    scroll_terminal, sgr_mouse_report, triggered_bindings, ScrollAction,
};

#[test]
fn mouse_reports() {
    assert_eq!(mouse_mods_code(mods(true, true, true, false)), 28);
    assert_eq!(
        normal_mouse_report(0, Line(2), Column(4)),
        Some(vec![0x1b, b'[', b'M', 32, 37, 35])
    );
    assert_eq!(normal_mouse_report(0, Line(223), Column(4)), None);
    assert_eq!(sgr_mouse_report(0, Line(9), Column(122), true), b"\x1b[<0;123;10M".to_vec());
    assert_eq!(sgr_mouse_report(2, Line(0), Column(0), false), b"\x1b[<2;1;1m".to_vec());
    let sgr = TermMode { bits: 32 };
    assert_eq!(
        mouse_report(1, false, mods(true, false, false, false), sgr, Line(0), Column(0)),
        Some(b"\x1b[<5;1;1m".to_vec())
    );
    let normal = TermMode { bits: 8 };
    assert_eq!(
        mouse_report(1, false, mods(false, false, false, false), normal, Line(0), Column(0)),
        Some(vec![0x1b, b'[', b'M', 35, 33, 33])
    );
}

#[test]
fn focus_reports() {
    assert_eq!(focus_report(true, TermMode { bits: 2048 }), Some(b"\x1b[I".to_vec()));
    assert_eq!(focus_report(false, TermMode { bits: 2048 }), Some(b"\x1b[O".to_vec()));
    assert_eq!(focus_report(true, TermMode { bits: 0 }), None);
}

#[test]
fn wheel_scrolls() {
    let none = mods(false, false, false, false);
    assert_eq!(
        scroll_terminal(64, none, TermMode { bits: 4096 }, 2, 3, Line(0), Column(0)),
        ScrollAction::Faux(b"\x1bOA\x1bOA".to_vec())
    );
    assert_eq!(
        scroll_terminal(65, none, TermMode { bits: 0 }, 2, 3, Line(0), Column(0)),
        ScrollAction::Scroll { lines: -1, times: 3 }
    );
    assert_eq!(
        scroll_terminal(64, mods(true, false, false, false), TermMode { bits: 4096 }, 2, 3, Line(0), Column(0)),
        ScrollAction::Scroll { lines: 1, times: 3 }
    );
    assert_eq!(
        scroll_terminal(64, none, TermMode { bits: 8 }, 2, 3, Line(0), Column(0)),
        ScrollAction::Report(Some(vec![0x1b, b'[', b'M', 96, 33, 33]))
    );
}

#[test]
fn typed_characters() {
    assert_eq!(received_char_bytes('a', true, 0, true), vec![0x1b, b'a']);
    assert_eq!(received_char_bytes('a', true, 1, true), vec![b'a']);
    assert_eq!(received_char_bytes('é', true, 0, true), "é".as_bytes().to_vec());
    assert_eq!(received_char_bytes('€', false, 0, false), "€".as_bytes().to_vec());
}

#[test]
fn triggered_binding_indices() {
    let none = mods(false, false, false, false);
    let bindings = vec![
        binding(2, 0, none),
        binding(0, 2, none),
        binding(0, 0, none),
        binding(0, 0, mods(true, false, false, false)),
    ];
    assert_eq!(triggered_bindings(&bindings, TermMode { bits: 2 }, none, &Key::Home, false), vec![0, 2]);
    assert_eq!(triggered_bindings(&bindings, TermMode { bits: 0 }, none, &Key::Home, false), vec![1, 2]);
    assert_eq!(
        triggered_bindings(&bindings, TermMode { bits: 0 }, mods(true, false, false, false), &Key::Home, true),
        vec![1, 2, 3]
    );
}

#[test]
fn button_codes_of_reportable_buttons() {
    assert_eq!(button_code(MouseButton::Left), Some(0));
    assert_eq!(button_code(MouseButton::Middle), Some(1));
    assert_eq!(button_code(MouseButton::Right), Some(2));
    assert_eq!(button_code(MouseButton::Other(4)), None);
}

#[test]
fn presses_count_clicks_within_thresholds() {
    let none = TermMode { bits: 0 };
    let r = on_mouse_press(ClickState::Click, false, 100, 300, 300, false, none, MouseButton::Left);
    assert_eq!(r, (ClickState::DoubleClick, PressEffect::DoubleClick));
    let r = on_mouse_press(ClickState::DoubleClick, false, 100, 300, 300, false, none, MouseButton::Left);
    assert_eq!(r, (ClickState::TripleClick, PressEffect::TripleClick));
    let r = on_mouse_press(ClickState::Click, false, 300, 300, 300, false, none, MouseButton::Left);
    assert_eq!(r, (ClickState::Click, PressEffect::Click { report: false, code: None }));
    let r = on_mouse_press(ClickState::Click, true, 10, 300, 300, false, none, MouseButton::Left);
    assert_eq!(r, (ClickState::Click, PressEffect::Click { report: false, code: None }));
    let r = on_mouse_press(ClickState::TripleClick, false, 10, 300, 300, false, none, MouseButton::Left);
    assert_eq!(r, (ClickState::Click, PressEffect::Click { report: false, code: None }));
}

#[test]
fn presses_are_reported_in_mouse_modes() {
    let click = TermMode { bits: 8 };
    let r = on_mouse_press(ClickState::NoClick, false, 10, 300, 300, false, click, MouseButton::Right);
    assert_eq!(r, (ClickState::NoClick, PressEffect::Click { report: true, code: Some(2) }));
    let r = on_mouse_press(ClickState::NoClick, false, 10, 300, 300, true, click, MouseButton::Right);
    assert_eq!(r, (ClickState::Click, PressEffect::Click { report: false, code: None }));
    let motion = TermMode { bits: 64 };
    let r = on_mouse_press(ClickState::TripleClick, false, 10, 300, 300, false, motion, MouseButton::Other(7));
    assert_eq!(r, (ClickState::TripleClick, PressEffect::Click { report: true, code: None }));
}

#[test]
fn releases_report_or_copy() {
    let drag = TermMode { bits: 8192 };
    let r = on_mouse_release(MouseButton::Middle, false, drag, true);
    assert_eq!(
        r,
        ReleaseEffect { report: Some(Some(1)), launch_url: false, copy_to_clipboard: false, copy_to_selection: false }
    );
    let r = on_mouse_release(MouseButton::Left, true, drag, true);
    assert_eq!(
        r,
        ReleaseEffect { report: None, launch_url: true, copy_to_clipboard: true, copy_to_selection: true }
    );
    let r = on_mouse_release(MouseButton::Right, false, TermMode { bits: 0 }, false);
    assert_eq!(
        r,
        ReleaseEffect { report: None, launch_url: false, copy_to_clipboard: false, copy_to_selection: true }
    );
}

#[test]
fn key_presses_reset_the_received_count() {
    let ctrl = mods(false, true, false, false);
    let s = KeyState { last_modifiers: mods(false, false, false, false), received_count: 3, suppress_chars: false };
    let pressed = process_key(s, true, ctrl, true);
    assert_eq!(pressed, KeyState { last_modifiers: ctrl, received_count: 0, suppress_chars: true });
    let released = process_key(pressed, false, mods(true, true, true, true), false);
    assert_eq!(released, KeyState { last_modifiers: ctrl, received_count: 0, suppress_chars: false });
}

#[test]
fn moves_select_or_report() {
    let none = TermMode { bits: 0 };
    let r = on_mouse_moved(true, false, true, false, false, false, none, true);
    assert_eq!(r, MoveEffect { block_url_launcher: true, update_selection: true, report: None });
    let drag = TermMode { bits: 8192 };
    let r = on_mouse_moved(true, false, true, false, false, false, drag, true);
    assert_eq!(r, MoveEffect { block_url_launcher: true, update_selection: false, report: Some(32) });
    let r = on_mouse_moved(true, false, true, false, false, true, drag, true);
    assert_eq!(r, MoveEffect { block_url_launcher: true, update_selection: true, report: None });
    let r = on_mouse_moved(true, false, false, true, false, false, drag, true);
    assert_eq!(r.report, Some(33));
    let r = on_mouse_moved(true, false, false, false, true, false, drag, true);
    assert_eq!(r.report, Some(34));
    let r = on_mouse_moved(true, false, false, false, false, false, drag, true);
    assert_eq!(r.report, None);
    let motion = TermMode { bits: 64 };
    let r = on_mouse_moved(true, false, false, false, false, false, motion, true);
    assert_eq!(r.report, Some(35));
    let r = on_mouse_moved(true, false, false, false, false, false, motion, false);
    assert_eq!(r.report, None);
    let r = on_mouse_moved(false, true, false, false, false, false, motion, true);
    assert_eq!(r, MoveEffect { block_url_launcher: true, update_selection: false, report: None });
    let r = on_mouse_moved(false, false, false, false, false, false, none, true);
    assert_eq!(r, MoveEffect { block_url_launcher: false, update_selection: false, report: None });
}

#[test]
fn pixel_scrolling_steps_by_cell_height() {
    assert_eq!(pixel_scroll(0, 35, 10), (5, vec![64, 64, 64]));
    assert_eq!(pixel_scroll(5, -30, 10), (-5, vec![65, 65]));
    assert_eq!(pixel_scroll(3, 4, 10), (7, vec![]));
    assert_eq!(pixel_scroll(0, -20, 10), (0, vec![65, 65]));
    assert_eq!(pixel_scroll(0, 0, 10), (0, vec![]));
}
