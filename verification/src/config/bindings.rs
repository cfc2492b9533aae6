//! The default key and mouse bindings, and how configured bindings replace
//! them.
use vstd::prelude::*;

use crate::config::Key;
use crate::input::{Action, Binding, KeyBinding, ModifiersState, MouseBinding, MouseButton, TermMode, Trigger};
use crate::util::lemma_filter_step;

verus! {

/// `b` has this trigger, modifiers, required and excluded modes, and action.
pub open spec fn binding_is<T>(
    b: Binding<T>,
    trigger: T,
    mods: ModifiersState,
    mode: u16,
    notmode: u16,
    action: Action,
) -> bool {
    &&& b.trigger == trigger
    &&& b.mods == mods
    &&& b.mode.bits == mode
    &&& b.notmode.bits == notmode
    &&& b.action == action
}

/// `b` has this trigger, modifiers and modes, and writes the escape sequence `esc`.
pub open spec fn binding_esc_is<T>(
    b: Binding<T>,
    trigger: T,
    mods: ModifiersState,
    mode: u16,
    notmode: u16,
    esc: Seq<char>,
) -> bool {
    &&& b.trigger == trigger
    &&& b.mods == mods
    &&& b.mode.bits == mode
    &&& b.notmode.bits == notmode
    &&& b.action matches Action::Esc(s) && s@ == esc
}

/// Row `i` of the table `mouse_binding_row`.
pub open spec fn mouse_binding_row(b: Binding<MouseButton>, i: int) -> bool {
    if i == 0 {
        binding_is(b, MouseButton::Middle, ModifiersState { shift: false, ctrl: false, alt: false, logo: false }, 0, 0, Action::PasteSelection)
    } else {
        false
    }
}
/// Row `i` of the table `key_binding_row`.
pub open spec fn key_binding_row(b: Binding<Key>, i: int) -> bool {
    if i == 0 {
        binding_is(b, Key::Paste, ModifiersState { shift: false, ctrl: false, alt: false, logo: false }, 0, 0, Action::Paste)
    } else if i == 1 {
        binding_is(b, Key::Copy, ModifiersState { shift: false, ctrl: false, alt: false, logo: false }, 0, 0, Action::Copy)
    } else if i == 2 {
        binding_is(b, Key::L, ModifiersState { shift: false, ctrl: true, alt: false, logo: false }, 0, 0, Action::ClearLogNotice)
    } else if i == 3 {
        binding_esc_is(b, Key::L, ModifiersState { shift: false, ctrl: true, alt: false, logo: false }, 0, 0, "\x0c"@)
    } else if i == 4 {
        binding_esc_is(b, Key::Home, ModifiersState { shift: false, ctrl: false, alt: true, logo: false }, 0, 0, "\x1b[1;3H"@)
    } else if i == 5 {
        binding_esc_is(b, Key::Home, ModifiersState { shift: false, ctrl: false, alt: false, logo: false }, 2, 0, "\x1bOH"@)
    } else if i == 6 {
        binding_esc_is(b, Key::Home, ModifiersState { shift: false, ctrl: false, alt: false, logo: false }, 0, 2, "\x1b[H"@)
    } else if i == 7 {
        binding_esc_is(b, Key::End, ModifiersState { shift: false, ctrl: false, alt: true, logo: false }, 0, 0, "\x1b[1;3F"@)
    } else if i == 8 {
        binding_esc_is(b, Key::End, ModifiersState { shift: false, ctrl: false, alt: false, logo: false }, 2, 0, "\x1bOF"@)
    } else if i == 9 {
        binding_esc_is(b, Key::End, ModifiersState { shift: false, ctrl: false, alt: false, logo: false }, 0, 2, "\x1b[F"@)
    } else if i == 10 {
        binding_is(b, Key::PageUp, ModifiersState { shift: true, ctrl: false, alt: false, logo: false }, 0, 4096, Action::ScrollPageUp)
    } else if i == 11 {
        binding_esc_is(b, Key::PageUp, ModifiersState { shift: true, ctrl: false, alt: false, logo: false }, 4096, 0, "\x1b[5;2~"@)
    } else if i == 12 {
        binding_esc_is(b, Key::PageUp, ModifiersState { shift: false, ctrl: true, alt: false, logo: false }, 0, 0, "\x1b[5;5~"@)
    } else if i == 13 {
        binding_esc_is(b, Key::PageUp, ModifiersState { shift: false, ctrl: false, alt: true, logo: false }, 0, 0, "\x1b[5;3~"@)
    } else if i == 14 {
        binding_esc_is(b, Key::PageUp, ModifiersState { shift: false, ctrl: false, alt: false, logo: false }, 0, 0, "\x1b[5~"@)
    } else if i == 15 {
        binding_is(b, Key::PageDown, ModifiersState { shift: true, ctrl: false, alt: false, logo: false }, 0, 4096, Action::ScrollPageDown)
    } else if i == 16 {
        binding_esc_is(b, Key::PageDown, ModifiersState { shift: true, ctrl: false, alt: false, logo: false }, 4096, 0, "\x1b[6;2~"@)
    } else if i == 17 {
        binding_esc_is(b, Key::PageDown, ModifiersState { shift: false, ctrl: true, alt: false, logo: false }, 0, 0, "\x1b[6;5~"@)
    } else if i == 18 {
        binding_esc_is(b, Key::PageDown, ModifiersState { shift: false, ctrl: false, alt: true, logo: false }, 0, 0, "\x1b[6;3~"@)
    } else if i == 19 {
        binding_esc_is(b, Key::PageDown, ModifiersState { shift: false, ctrl: false, alt: false, logo: false }, 0, 0, "\x1b[6~"@)
    } else if i == 20 {
        binding_esc_is(b, Key::Tab, ModifiersState { shift: true, ctrl: false, alt: false, logo: false }, 0, 0, "\x1b[Z"@)
    } else if i == 21 {
        binding_esc_is(b, Key::Back, ModifiersState { shift: false, ctrl: false, alt: false, logo: false }, 0, 0, "\x7f"@)
    } else if i == 22 {
        binding_esc_is(b, Key::Back, ModifiersState { shift: false, ctrl: false, alt: true, logo: false }, 0, 0, "\x1b\x7f"@)
    } else if i == 23 {
        binding_esc_is(b, Key::Insert, ModifiersState { shift: false, ctrl: false, alt: false, logo: false }, 0, 0, "\x1b[2~"@)
    } else if i == 24 {
        binding_esc_is(b, Key::Delete, ModifiersState { shift: false, ctrl: false, alt: false, logo: false }, 0, 0, "\x1b[3~"@)
    } else if i == 25 {
        binding_esc_is(b, Key::Left, ModifiersState { shift: true, ctrl: false, alt: false, logo: false }, 0, 0, "\x1b[1;2D"@)
    } else if i == 26 {
        binding_esc_is(b, Key::Left, ModifiersState { shift: false, ctrl: true, alt: false, logo: false }, 0, 0, "\x1b[1;5D"@)
    } else if i == 27 {
        binding_esc_is(b, Key::Left, ModifiersState { shift: false, ctrl: false, alt: true, logo: false }, 0, 0, "\x1b[1;3D"@)
    } else if i == 28 {
        binding_esc_is(b, Key::Left, ModifiersState { shift: false, ctrl: false, alt: false, logo: false }, 0, 2, "\x1b[D"@)
    } else if i == 29 {
        binding_esc_is(b, Key::Left, ModifiersState { shift: false, ctrl: false, alt: false, logo: false }, 2, 0, "\x1bOD"@)
    } else if i == 30 {
        binding_esc_is(b, Key::Right, ModifiersState { shift: true, ctrl: false, alt: false, logo: false }, 0, 0, "\x1b[1;2C"@)
    } else if i == 31 {
        binding_esc_is(b, Key::Right, ModifiersState { shift: false, ctrl: true, alt: false, logo: false }, 0, 0, "\x1b[1;5C"@)
    } else if i == 32 {
        binding_esc_is(b, Key::Right, ModifiersState { shift: false, ctrl: false, alt: true, logo: false }, 0, 0, "\x1b[1;3C"@)
    } else if i == 33 {
        binding_esc_is(b, Key::Right, ModifiersState { shift: false, ctrl: false, alt: false, logo: false }, 0, 2, "\x1b[C"@)
    } else if i == 34 {
        binding_esc_is(b, Key::Right, ModifiersState { shift: false, ctrl: false, alt: false, logo: false }, 2, 0, "\x1bOC"@)
    } else if i == 35 {
        binding_esc_is(b, Key::Up, ModifiersState { shift: true, ctrl: false, alt: false, logo: false }, 0, 0, "\x1b[1;2A"@)
    } else if i == 36 {
        binding_esc_is(b, Key::Up, ModifiersState { shift: false, ctrl: true, alt: false, logo: false }, 0, 0, "\x1b[1;5A"@)
    } else if i == 37 {
        binding_esc_is(b, Key::Up, ModifiersState { shift: false, ctrl: false, alt: true, logo: false }, 0, 0, "\x1b[1;3A"@)
    } else if i == 38 {
        binding_esc_is(b, Key::Up, ModifiersState { shift: false, ctrl: false, alt: false, logo: false }, 0, 2, "\x1b[A"@)
    } else if i == 39 {
        binding_esc_is(b, Key::Up, ModifiersState { shift: false, ctrl: false, alt: false, logo: false }, 2, 0, "\x1bOA"@)
    } else if i == 40 {
        binding_esc_is(b, Key::Down, ModifiersState { shift: true, ctrl: false, alt: false, logo: false }, 0, 0, "\x1b[1;2B"@)
    } else if i == 41 {
        binding_esc_is(b, Key::Down, ModifiersState { shift: false, ctrl: true, alt: false, logo: false }, 0, 0, "\x1b[1;5B"@)
    } else if i == 42 {
        binding_esc_is(b, Key::Down, ModifiersState { shift: false, ctrl: false, alt: true, logo: false }, 0, 0, "\x1b[1;3B"@)
    } else if i == 43 {
        binding_esc_is(b, Key::Down, ModifiersState { shift: false, ctrl: false, alt: false, logo: false }, 0, 2, "\x1b[B"@)
    } else if i == 44 {
        binding_esc_is(b, Key::Down, ModifiersState { shift: false, ctrl: false, alt: false, logo: false }, 2, 0, "\x1bOB"@)
    } else if i == 45 {
        binding_esc_is(b, Key::F1, ModifiersState { shift: false, ctrl: false, alt: false, logo: false }, 0, 0, "\x1bOP"@)
    } else if i == 46 {
        binding_esc_is(b, Key::F2, ModifiersState { shift: false, ctrl: false, alt: false, logo: false }, 0, 0, "\x1bOQ"@)
    } else if i == 47 {
        binding_esc_is(b, Key::F3, ModifiersState { shift: false, ctrl: false, alt: false, logo: false }, 0, 0, "\x1bOR"@)
    } else if i == 48 {
        binding_esc_is(b, Key::F4, ModifiersState { shift: false, ctrl: false, alt: false, logo: false }, 0, 0, "\x1bOS"@)
    } else if i == 49 {
        binding_esc_is(b, Key::F5, ModifiersState { shift: false, ctrl: false, alt: false, logo: false }, 0, 0, "\x1b[15~"@)
    } else if i == 50 {
        binding_esc_is(b, Key::F6, ModifiersState { shift: false, ctrl: false, alt: false, logo: false }, 0, 0, "\x1b[17~"@)
    } else if i == 51 {
        binding_esc_is(b, Key::F7, ModifiersState { shift: false, ctrl: false, alt: false, logo: false }, 0, 0, "\x1b[18~"@)
    } else if i == 52 {
        binding_esc_is(b, Key::F8, ModifiersState { shift: false, ctrl: false, alt: false, logo: false }, 0, 0, "\x1b[19~"@)
    } else if i == 53 {
        binding_esc_is(b, Key::F9, ModifiersState { shift: false, ctrl: false, alt: false, logo: false }, 0, 0, "\x1b[20~"@)
    } else if i == 54 {
        binding_esc_is(b, Key::F10, ModifiersState { shift: false, ctrl: false, alt: false, logo: false }, 0, 0, "\x1b[21~"@)
    } else if i == 55 {
        binding_esc_is(b, Key::F11, ModifiersState { shift: false, ctrl: false, alt: false, logo: false }, 0, 0, "\x1b[23~"@)
    } else if i == 56 {
        binding_esc_is(b, Key::F12, ModifiersState { shift: false, ctrl: false, alt: false, logo: false }, 0, 0, "\x1b[24~"@)
    } else if i == 57 {
        binding_esc_is(b, Key::F1, ModifiersState { shift: true, ctrl: false, alt: false, logo: false }, 0, 0, "\x1b[1;2P"@)
    } else if i == 58 {
        binding_esc_is(b, Key::F2, ModifiersState { shift: true, ctrl: false, alt: false, logo: false }, 0, 0, "\x1b[1;2Q"@)
    } else if i == 59 {
        binding_esc_is(b, Key::F3, ModifiersState { shift: true, ctrl: false, alt: false, logo: false }, 0, 0, "\x1b[1;2R"@)
    } else if i == 60 {
        binding_esc_is(b, Key::F4, ModifiersState { shift: true, ctrl: false, alt: false, logo: false }, 0, 0, "\x1b[1;2S"@)
    } else if i == 61 {
        binding_esc_is(b, Key::F5, ModifiersState { shift: true, ctrl: false, alt: false, logo: false }, 0, 0, "\x1b[15;2~"@)
    } else if i == 62 {
        binding_esc_is(b, Key::F6, ModifiersState { shift: true, ctrl: false, alt: false, logo: false }, 0, 0, "\x1b[17;2~"@)
    } else if i == 63 {
        binding_esc_is(b, Key::F7, ModifiersState { shift: true, ctrl: false, alt: false, logo: false }, 0, 0, "\x1b[18;2~"@)
    } else if i == 64 {
        binding_esc_is(b, Key::F8, ModifiersState { shift: true, ctrl: false, alt: false, logo: false }, 0, 0, "\x1b[19;2~"@)
    } else if i == 65 {
        binding_esc_is(b, Key::F9, ModifiersState { shift: true, ctrl: false, alt: false, logo: false }, 0, 0, "\x1b[20;2~"@)
    } else if i == 66 {
        binding_esc_is(b, Key::F10, ModifiersState { shift: true, ctrl: false, alt: false, logo: false }, 0, 0, "\x1b[21;2~"@)
    } else if i == 67 {
        binding_esc_is(b, Key::F11, ModifiersState { shift: true, ctrl: false, alt: false, logo: false }, 0, 0, "\x1b[23;2~"@)
    } else if i == 68 {
        binding_esc_is(b, Key::F12, ModifiersState { shift: true, ctrl: false, alt: false, logo: false }, 0, 0, "\x1b[24;2~"@)
    } else if i == 69 {
        binding_esc_is(b, Key::F1, ModifiersState { shift: false, ctrl: true, alt: false, logo: false }, 0, 0, "\x1b[1;5P"@)
    } else if i == 70 {
        binding_esc_is(b, Key::F2, ModifiersState { shift: false, ctrl: true, alt: false, logo: false }, 0, 0, "\x1b[1;5Q"@)
    } else if i == 71 {
        binding_esc_is(b, Key::F3, ModifiersState { shift: false, ctrl: true, alt: false, logo: false }, 0, 0, "\x1b[1;5R"@)
    } else if i == 72 {
        binding_esc_is(b, Key::F4, ModifiersState { shift: false, ctrl: true, alt: false, logo: false }, 0, 0, "\x1b[1;5S"@)
    } else if i == 73 {
        binding_esc_is(b, Key::F5, ModifiersState { shift: false, ctrl: true, alt: false, logo: false }, 0, 0, "\x1b[15;5~"@)
    } else if i == 74 {
        binding_esc_is(b, Key::F6, ModifiersState { shift: false, ctrl: true, alt: false, logo: false }, 0, 0, "\x1b[17;5~"@)
    } else if i == 75 {
        binding_esc_is(b, Key::F7, ModifiersState { shift: false, ctrl: true, alt: false, logo: false }, 0, 0, "\x1b[18;5~"@)
    } else if i == 76 {
        binding_esc_is(b, Key::F8, ModifiersState { shift: false, ctrl: true, alt: false, logo: false }, 0, 0, "\x1b[19;5~"@)
    } else if i == 77 {
        binding_esc_is(b, Key::F9, ModifiersState { shift: false, ctrl: true, alt: false, logo: false }, 0, 0, "\x1b[20;5~"@)
    } else if i == 78 {
        binding_esc_is(b, Key::F10, ModifiersState { shift: false, ctrl: true, alt: false, logo: false }, 0, 0, "\x1b[21;5~"@)
    } else if i == 79 {
        binding_esc_is(b, Key::F11, ModifiersState { shift: false, ctrl: true, alt: false, logo: false }, 0, 0, "\x1b[23;5~"@)
    } else if i == 80 {
        binding_esc_is(b, Key::F12, ModifiersState { shift: false, ctrl: true, alt: false, logo: false }, 0, 0, "\x1b[24;5~"@)
    } else if i == 81 {
        binding_esc_is(b, Key::F1, ModifiersState { shift: false, ctrl: false, alt: true, logo: false }, 0, 0, "\x1b[1;6P"@)
    } else if i == 82 {
        binding_esc_is(b, Key::F2, ModifiersState { shift: false, ctrl: false, alt: true, logo: false }, 0, 0, "\x1b[1;6Q"@)
    } else if i == 83 {
        binding_esc_is(b, Key::F3, ModifiersState { shift: false, ctrl: false, alt: true, logo: false }, 0, 0, "\x1b[1;6R"@)
    } else if i == 84 {
        binding_esc_is(b, Key::F4, ModifiersState { shift: false, ctrl: false, alt: true, logo: false }, 0, 0, "\x1b[1;6S"@)
    } else if i == 85 {
        binding_esc_is(b, Key::F5, ModifiersState { shift: false, ctrl: false, alt: true, logo: false }, 0, 0, "\x1b[15;6~"@)
    } else if i == 86 {
        binding_esc_is(b, Key::F6, ModifiersState { shift: false, ctrl: false, alt: true, logo: false }, 0, 0, "\x1b[17;6~"@)
    } else if i == 87 {
        binding_esc_is(b, Key::F7, ModifiersState { shift: false, ctrl: false, alt: true, logo: false }, 0, 0, "\x1b[18;6~"@)
    } else if i == 88 {
        binding_esc_is(b, Key::F8, ModifiersState { shift: false, ctrl: false, alt: true, logo: false }, 0, 0, "\x1b[19;6~"@)
    } else if i == 89 {
        binding_esc_is(b, Key::F9, ModifiersState { shift: false, ctrl: false, alt: true, logo: false }, 0, 0, "\x1b[20;6~"@)
    } else if i == 90 {
        binding_esc_is(b, Key::F10, ModifiersState { shift: false, ctrl: false, alt: true, logo: false }, 0, 0, "\x1b[21;6~"@)
    } else if i == 91 {
        binding_esc_is(b, Key::F11, ModifiersState { shift: false, ctrl: false, alt: true, logo: false }, 0, 0, "\x1b[23;6~"@)
    } else if i == 92 {
        binding_esc_is(b, Key::F12, ModifiersState { shift: false, ctrl: false, alt: true, logo: false }, 0, 0, "\x1b[24;6~"@)
    } else if i == 93 {
        binding_esc_is(b, Key::F1, ModifiersState { shift: false, ctrl: false, alt: false, logo: true }, 0, 0, "\x1b[1;3P"@)
    } else if i == 94 {
        binding_esc_is(b, Key::F2, ModifiersState { shift: false, ctrl: false, alt: false, logo: true }, 0, 0, "\x1b[1;3Q"@)
    } else if i == 95 {
        binding_esc_is(b, Key::F3, ModifiersState { shift: false, ctrl: false, alt: false, logo: true }, 0, 0, "\x1b[1;3R"@)
    } else if i == 96 {
        binding_esc_is(b, Key::F4, ModifiersState { shift: false, ctrl: false, alt: false, logo: true }, 0, 0, "\x1b[1;3S"@)
    } else if i == 97 {
        binding_esc_is(b, Key::F5, ModifiersState { shift: false, ctrl: false, alt: false, logo: true }, 0, 0, "\x1b[15;3~"@)
    } else if i == 98 {
        binding_esc_is(b, Key::F6, ModifiersState { shift: false, ctrl: false, alt: false, logo: true }, 0, 0, "\x1b[17;3~"@)
    } else if i == 99 {
        binding_esc_is(b, Key::F7, ModifiersState { shift: false, ctrl: false, alt: false, logo: true }, 0, 0, "\x1b[18;3~"@)
    } else if i == 100 {
        binding_esc_is(b, Key::F8, ModifiersState { shift: false, ctrl: false, alt: false, logo: true }, 0, 0, "\x1b[19;3~"@)
    } else if i == 101 {
        binding_esc_is(b, Key::F9, ModifiersState { shift: false, ctrl: false, alt: false, logo: true }, 0, 0, "\x1b[20;3~"@)
    } else if i == 102 {
        binding_esc_is(b, Key::F10, ModifiersState { shift: false, ctrl: false, alt: false, logo: true }, 0, 0, "\x1b[21;3~"@)
    } else if i == 103 {
        binding_esc_is(b, Key::F11, ModifiersState { shift: false, ctrl: false, alt: false, logo: true }, 0, 0, "\x1b[23;3~"@)
    } else if i == 104 {
        binding_esc_is(b, Key::F12, ModifiersState { shift: false, ctrl: false, alt: false, logo: true }, 0, 0, "\x1b[24;3~"@)
    } else if i == 105 {
        binding_esc_is(b, Key::NumpadEnter, ModifiersState { shift: false, ctrl: false, alt: false, logo: false }, 0, 0, "\n"@)
    } else {
        false
    }
}
/// Row `i` of the table `platform_key_binding_row`.
pub open spec fn platform_key_binding_row(b: Binding<Key>, i: int) -> bool {
    if i == 0 {
        binding_is(b, Key::V, ModifiersState { shift: true, ctrl: true, alt: false, logo: false }, 0, 0, Action::Paste)
    } else if i == 1 {
        binding_is(b, Key::C, ModifiersState { shift: true, ctrl: true, alt: false, logo: false }, 0, 0, Action::Copy)
    } else if i == 2 {
        binding_is(b, Key::Insert, ModifiersState { shift: true, ctrl: false, alt: false, logo: false }, 0, 0, Action::PasteSelection)
    } else if i == 3 {
        binding_is(b, Key::Key0, ModifiersState { shift: false, ctrl: true, alt: false, logo: false }, 0, 0, Action::ResetFontSize)
    } else if i == 4 {
        binding_is(b, Key::Equals, ModifiersState { shift: false, ctrl: true, alt: false, logo: false }, 0, 0, Action::IncreaseFontSize)
    } else if i == 5 {
        binding_is(b, Key::Add, ModifiersState { shift: false, ctrl: true, alt: false, logo: false }, 0, 0, Action::IncreaseFontSize)
    } else if i == 6 {
        binding_is(b, Key::Subtract, ModifiersState { shift: false, ctrl: true, alt: false, logo: false }, 0, 0, Action::DecreaseFontSize)
    } else {
        false
    }
}

fn mods(shift: bool, ctrl: bool, alt: bool, logo: bool) -> (m: ModifiersState)
    ensures
        m == (ModifiersState { shift, ctrl, alt, logo }),
{
    ModifiersState { shift, ctrl, alt, logo }
}

fn kb(
    trigger: Key,
    shift: bool,
    ctrl: bool,
    alt: bool,
    logo: bool,
    mode: u16,
    notmode: u16,
    action: Action,
) -> (b: KeyBinding)
    ensures
        binding_is(b, trigger, ModifiersState { shift, ctrl, alt, logo }, mode, notmode, action),
{
    Binding {
        trigger,
        mods: mods(shift, ctrl, alt, logo),
        mode: TermMode { bits: mode },
        notmode: TermMode { bits: notmode },
        action,
    }
}

fn kb_esc(
    trigger: Key,
    shift: bool,
    ctrl: bool,
    alt: bool,
    logo: bool,
    mode: u16,
    notmode: u16,
    esc: &str,
) -> (b: KeyBinding)
    ensures
        binding_esc_is(b, trigger, ModifiersState { shift, ctrl, alt, logo }, mode, notmode, esc@),
{
    Binding {
        trigger,
        mods: mods(shift, ctrl, alt, logo),
        mode: TermMode { bits: mode },
        notmode: TermMode { bits: notmode },
        action: Action::Esc(esc.to_owned()),
    }
}

fn mb(
    trigger: MouseButton,
    shift: bool,
    ctrl: bool,
    alt: bool,
    logo: bool,
    mode: u16,
    notmode: u16,
    action: Action,
) -> (b: MouseBinding)
    ensures
        binding_is(b, trigger, ModifiersState { shift, ctrl, alt, logo }, mode, notmode, action),
{
    Binding {
        trigger,
        mods: mods(shift, ctrl, alt, logo),
        mode: TermMode { bits: mode },
        notmode: TermMode { bits: notmode },
        action,
    }
}

/// The default mouse bindings: the middle button pastes the selection.
pub fn default_mouse_bindings() -> (r: Vec<MouseBinding>)
    ensures
        r@.len() == 1,
        forall|i: int| 0 <= i < 1 ==> mouse_binding_row(#[trigger] r@[i], i),
{
    let mut v: Vec<MouseBinding> = Vec::new();
    v.push(mb(MouseButton::Middle, false, false, false, false, 0, 0, Action::PasteSelection));
    assert(mouse_binding_row(v@[0], 0));
    v
}

/// The key bindings of this platform, after the common ones.
pub fn platform_key_bindings() -> (r: Vec<KeyBinding>)
    ensures
        r@.len() == 7,
        forall|i: int| 0 <= i < 7 ==> platform_key_binding_row(#[trigger] r@[i], i),
{
    let mut v: Vec<KeyBinding> = Vec::new();
    v.push(kb(Key::V, true, true, false, false, 0, 0, Action::Paste));
    assert(platform_key_binding_row(v@[0], 0));
    v.push(kb(Key::C, true, true, false, false, 0, 0, Action::Copy));
    assert(platform_key_binding_row(v@[1], 1));
    v.push(kb(Key::Insert, true, false, false, false, 0, 0, Action::PasteSelection));
    assert(platform_key_binding_row(v@[2], 2));
    v.push(kb(Key::Key0, false, true, false, false, 0, 0, Action::ResetFontSize));
    assert(platform_key_binding_row(v@[3], 3));
    v.push(kb(Key::Equals, false, true, false, false, 0, 0, Action::IncreaseFontSize));
    assert(platform_key_binding_row(v@[4], 4));
    v.push(kb(Key::Add, false, true, false, false, 0, 0, Action::IncreaseFontSize));
    assert(platform_key_binding_row(v@[5], 5));
    v.push(kb(Key::Subtract, false, true, false, false, 0, 0, Action::DecreaseFontSize));
    assert(platform_key_binding_row(v@[6], 6));
    assert forall|i: int| 0 <= i < 7 implies platform_key_binding_row(#[trigger] v@[i], i) by {
        assert(i == 0 || i == 1 || i == 2 || i == 3 || i == 4 || i == 5 || i == 6);
    }
    v
}

/// Rows 0 to 9 of the common key bindings.
fn common_key_bindings_from_0() -> (r: Vec<KeyBinding>)
    ensures
        r@.len() == 10,
        forall|i: int| 0 <= i < 10 ==> key_binding_row(#[trigger] r@[i], 0 + i),
{
    let mut v: Vec<KeyBinding> = Vec::new();
    v.push(kb(Key::Paste, false, false, false, false, 0, 0, Action::Paste));
    v.push(kb(Key::Copy, false, false, false, false, 0, 0, Action::Copy));
    v.push(kb(Key::L, false, true, false, false, 0, 0, Action::ClearLogNotice));
    v.push(kb_esc(Key::L, false, true, false, false, 0, 0, "\x0c"));
    v.push(kb_esc(Key::Home, false, false, true, false, 0, 0, "\x1b[1;3H"));
    v.push(kb_esc(Key::Home, false, false, false, false, 2, 0, "\x1bOH"));
    v.push(kb_esc(Key::Home, false, false, false, false, 0, 2, "\x1b[H"));
    v.push(kb_esc(Key::End, false, false, true, false, 0, 0, "\x1b[1;3F"));
    v.push(kb_esc(Key::End, false, false, false, false, 2, 0, "\x1bOF"));
    v.push(kb_esc(Key::End, false, false, false, false, 0, 2, "\x1b[F"));
    assert forall|i: int| 0 <= i < 10 implies key_binding_row(#[trigger] v@[i], 0 + i) by {
        assert(i == 0 || i == 1 || i == 2 || i == 3 || i == 4 || i == 5 || i == 6 || i == 7 || i == 8 || i == 9);
    }
    v
}

/// Rows 10 to 19 of the common key bindings.
fn common_key_bindings_from_10() -> (r: Vec<KeyBinding>)
    ensures
        r@.len() == 10,
        forall|i: int| 0 <= i < 10 ==> key_binding_row(#[trigger] r@[i], 10 + i),
{
    let mut v: Vec<KeyBinding> = Vec::new();
    v.push(kb(Key::PageUp, true, false, false, false, 0, 4096, Action::ScrollPageUp));
    v.push(kb_esc(Key::PageUp, true, false, false, false, 4096, 0, "\x1b[5;2~"));
    v.push(kb_esc(Key::PageUp, false, true, false, false, 0, 0, "\x1b[5;5~"));
    v.push(kb_esc(Key::PageUp, false, false, true, false, 0, 0, "\x1b[5;3~"));
    v.push(kb_esc(Key::PageUp, false, false, false, false, 0, 0, "\x1b[5~"));
    v.push(kb(Key::PageDown, true, false, false, false, 0, 4096, Action::ScrollPageDown));
    v.push(kb_esc(Key::PageDown, true, false, false, false, 4096, 0, "\x1b[6;2~"));
    v.push(kb_esc(Key::PageDown, false, true, false, false, 0, 0, "\x1b[6;5~"));
    v.push(kb_esc(Key::PageDown, false, false, true, false, 0, 0, "\x1b[6;3~"));
    v.push(kb_esc(Key::PageDown, false, false, false, false, 0, 0, "\x1b[6~"));
    assert forall|i: int| 0 <= i < 10 implies key_binding_row(#[trigger] v@[i], 10 + i) by {
        assert(i == 0 || i == 1 || i == 2 || i == 3 || i == 4 || i == 5 || i == 6 || i == 7 || i == 8 || i == 9);
    }
    v
}

/// Rows 20 to 29 of the common key bindings.
fn common_key_bindings_from_20() -> (r: Vec<KeyBinding>)
    ensures
        r@.len() == 10,
        forall|i: int| 0 <= i < 10 ==> key_binding_row(#[trigger] r@[i], 20 + i),
{
    let mut v: Vec<KeyBinding> = Vec::new();
    v.push(kb_esc(Key::Tab, true, false, false, false, 0, 0, "\x1b[Z"));
    v.push(kb_esc(Key::Back, false, false, false, false, 0, 0, "\x7f"));
    v.push(kb_esc(Key::Back, false, false, true, false, 0, 0, "\x1b\x7f"));
    v.push(kb_esc(Key::Insert, false, false, false, false, 0, 0, "\x1b[2~"));
    v.push(kb_esc(Key::Delete, false, false, false, false, 0, 0, "\x1b[3~"));
    v.push(kb_esc(Key::Left, true, false, false, false, 0, 0, "\x1b[1;2D"));
    v.push(kb_esc(Key::Left, false, true, false, false, 0, 0, "\x1b[1;5D"));
    v.push(kb_esc(Key::Left, false, false, true, false, 0, 0, "\x1b[1;3D"));
    v.push(kb_esc(Key::Left, false, false, false, false, 0, 2, "\x1b[D"));
    v.push(kb_esc(Key::Left, false, false, false, false, 2, 0, "\x1bOD"));
    assert forall|i: int| 0 <= i < 10 implies key_binding_row(#[trigger] v@[i], 20 + i) by {
        assert(i == 0 || i == 1 || i == 2 || i == 3 || i == 4 || i == 5 || i == 6 || i == 7 || i == 8 || i == 9);
    }
    v
}

/// Rows 30 to 39 of the common key bindings.
fn common_key_bindings_from_30() -> (r: Vec<KeyBinding>)
    ensures
        r@.len() == 10,
        forall|i: int| 0 <= i < 10 ==> key_binding_row(#[trigger] r@[i], 30 + i),
{
    let mut v: Vec<KeyBinding> = Vec::new();
    v.push(kb_esc(Key::Right, true, false, false, false, 0, 0, "\x1b[1;2C"));
    v.push(kb_esc(Key::Right, false, true, false, false, 0, 0, "\x1b[1;5C"));
    v.push(kb_esc(Key::Right, false, false, true, false, 0, 0, "\x1b[1;3C"));
    v.push(kb_esc(Key::Right, false, false, false, false, 0, 2, "\x1b[C"));
    v.push(kb_esc(Key::Right, false, false, false, false, 2, 0, "\x1bOC"));
    v.push(kb_esc(Key::Up, true, false, false, false, 0, 0, "\x1b[1;2A"));
    v.push(kb_esc(Key::Up, false, true, false, false, 0, 0, "\x1b[1;5A"));
    v.push(kb_esc(Key::Up, false, false, true, false, 0, 0, "\x1b[1;3A"));
    v.push(kb_esc(Key::Up, false, false, false, false, 0, 2, "\x1b[A"));
    v.push(kb_esc(Key::Up, false, false, false, false, 2, 0, "\x1bOA"));
    assert forall|i: int| 0 <= i < 10 implies key_binding_row(#[trigger] v@[i], 30 + i) by {
        assert(i == 0 || i == 1 || i == 2 || i == 3 || i == 4 || i == 5 || i == 6 || i == 7 || i == 8 || i == 9);
    }
    v
}

/// Rows 40 to 49 of the common key bindings.
fn common_key_bindings_from_40() -> (r: Vec<KeyBinding>)
    ensures
        r@.len() == 10,
        forall|i: int| 0 <= i < 10 ==> key_binding_row(#[trigger] r@[i], 40 + i),
{
    let mut v: Vec<KeyBinding> = Vec::new();
    v.push(kb_esc(Key::Down, true, false, false, false, 0, 0, "\x1b[1;2B"));
    v.push(kb_esc(Key::Down, false, true, false, false, 0, 0, "\x1b[1;5B"));
    v.push(kb_esc(Key::Down, false, false, true, false, 0, 0, "\x1b[1;3B"));
    v.push(kb_esc(Key::Down, false, false, false, false, 0, 2, "\x1b[B"));
    v.push(kb_esc(Key::Down, false, false, false, false, 2, 0, "\x1bOB"));
    v.push(kb_esc(Key::F1, false, false, false, false, 0, 0, "\x1bOP"));
    v.push(kb_esc(Key::F2, false, false, false, false, 0, 0, "\x1bOQ"));
    v.push(kb_esc(Key::F3, false, false, false, false, 0, 0, "\x1bOR"));
    v.push(kb_esc(Key::F4, false, false, false, false, 0, 0, "\x1bOS"));
    v.push(kb_esc(Key::F5, false, false, false, false, 0, 0, "\x1b[15~"));
    assert forall|i: int| 0 <= i < 10 implies key_binding_row(#[trigger] v@[i], 40 + i) by {
        assert(i == 0 || i == 1 || i == 2 || i == 3 || i == 4 || i == 5 || i == 6 || i == 7 || i == 8 || i == 9);
    }
    v
}

/// Rows 50 to 59 of the common key bindings.
fn common_key_bindings_from_50() -> (r: Vec<KeyBinding>)
    ensures
        r@.len() == 10,
        forall|i: int| 0 <= i < 10 ==> key_binding_row(#[trigger] r@[i], 50 + i),
{
    let mut v: Vec<KeyBinding> = Vec::new();
    v.push(kb_esc(Key::F6, false, false, false, false, 0, 0, "\x1b[17~"));
    v.push(kb_esc(Key::F7, false, false, false, false, 0, 0, "\x1b[18~"));
    v.push(kb_esc(Key::F8, false, false, false, false, 0, 0, "\x1b[19~"));
    v.push(kb_esc(Key::F9, false, false, false, false, 0, 0, "\x1b[20~"));
    v.push(kb_esc(Key::F10, false, false, false, false, 0, 0, "\x1b[21~"));
    v.push(kb_esc(Key::F11, false, false, false, false, 0, 0, "\x1b[23~"));
    v.push(kb_esc(Key::F12, false, false, false, false, 0, 0, "\x1b[24~"));
    v.push(kb_esc(Key::F1, true, false, false, false, 0, 0, "\x1b[1;2P"));
    v.push(kb_esc(Key::F2, true, false, false, false, 0, 0, "\x1b[1;2Q"));
    v.push(kb_esc(Key::F3, true, false, false, false, 0, 0, "\x1b[1;2R"));
    assert forall|i: int| 0 <= i < 10 implies key_binding_row(#[trigger] v@[i], 50 + i) by {
        assert(i == 0 || i == 1 || i == 2 || i == 3 || i == 4 || i == 5 || i == 6 || i == 7 || i == 8 || i == 9);
    }
    v
}

/// Rows 60 to 69 of the common key bindings.
fn common_key_bindings_from_60() -> (r: Vec<KeyBinding>)
    ensures
        r@.len() == 10,
        forall|i: int| 0 <= i < 10 ==> key_binding_row(#[trigger] r@[i], 60 + i),
{
    let mut v: Vec<KeyBinding> = Vec::new();
    v.push(kb_esc(Key::F4, true, false, false, false, 0, 0, "\x1b[1;2S"));
    v.push(kb_esc(Key::F5, true, false, false, false, 0, 0, "\x1b[15;2~"));
    v.push(kb_esc(Key::F6, true, false, false, false, 0, 0, "\x1b[17;2~"));
    v.push(kb_esc(Key::F7, true, false, false, false, 0, 0, "\x1b[18;2~"));
    v.push(kb_esc(Key::F8, true, false, false, false, 0, 0, "\x1b[19;2~"));
    v.push(kb_esc(Key::F9, true, false, false, false, 0, 0, "\x1b[20;2~"));
    v.push(kb_esc(Key::F10, true, false, false, false, 0, 0, "\x1b[21;2~"));
    v.push(kb_esc(Key::F11, true, false, false, false, 0, 0, "\x1b[23;2~"));
    v.push(kb_esc(Key::F12, true, false, false, false, 0, 0, "\x1b[24;2~"));
    v.push(kb_esc(Key::F1, false, true, false, false, 0, 0, "\x1b[1;5P"));
    assert forall|i: int| 0 <= i < 10 implies key_binding_row(#[trigger] v@[i], 60 + i) by {
        assert(i == 0 || i == 1 || i == 2 || i == 3 || i == 4 || i == 5 || i == 6 || i == 7 || i == 8 || i == 9);
    }
    v
}

/// Rows 70 to 79 of the common key bindings.
fn common_key_bindings_from_70() -> (r: Vec<KeyBinding>)
    ensures
        r@.len() == 10,
        forall|i: int| 0 <= i < 10 ==> key_binding_row(#[trigger] r@[i], 70 + i),
{
    let mut v: Vec<KeyBinding> = Vec::new();
    v.push(kb_esc(Key::F2, false, true, false, false, 0, 0, "\x1b[1;5Q"));
    v.push(kb_esc(Key::F3, false, true, false, false, 0, 0, "\x1b[1;5R"));
    v.push(kb_esc(Key::F4, false, true, false, false, 0, 0, "\x1b[1;5S"));
    v.push(kb_esc(Key::F5, false, true, false, false, 0, 0, "\x1b[15;5~"));
    v.push(kb_esc(Key::F6, false, true, false, false, 0, 0, "\x1b[17;5~"));
    v.push(kb_esc(Key::F7, false, true, false, false, 0, 0, "\x1b[18;5~"));
    v.push(kb_esc(Key::F8, false, true, false, false, 0, 0, "\x1b[19;5~"));
    v.push(kb_esc(Key::F9, false, true, false, false, 0, 0, "\x1b[20;5~"));
    v.push(kb_esc(Key::F10, false, true, false, false, 0, 0, "\x1b[21;5~"));
    v.push(kb_esc(Key::F11, false, true, false, false, 0, 0, "\x1b[23;5~"));
    assert forall|i: int| 0 <= i < 10 implies key_binding_row(#[trigger] v@[i], 70 + i) by {
        assert(i == 0 || i == 1 || i == 2 || i == 3 || i == 4 || i == 5 || i == 6 || i == 7 || i == 8 || i == 9);
    }
    v
}

/// Rows 80 to 89 of the common key bindings.
fn common_key_bindings_from_80() -> (r: Vec<KeyBinding>)
    ensures
        r@.len() == 10,
        forall|i: int| 0 <= i < 10 ==> key_binding_row(#[trigger] r@[i], 80 + i),
{
    let mut v: Vec<KeyBinding> = Vec::new();
    v.push(kb_esc(Key::F12, false, true, false, false, 0, 0, "\x1b[24;5~"));
    v.push(kb_esc(Key::F1, false, false, true, false, 0, 0, "\x1b[1;6P"));
    v.push(kb_esc(Key::F2, false, false, true, false, 0, 0, "\x1b[1;6Q"));
    v.push(kb_esc(Key::F3, false, false, true, false, 0, 0, "\x1b[1;6R"));
    v.push(kb_esc(Key::F4, false, false, true, false, 0, 0, "\x1b[1;6S"));
    v.push(kb_esc(Key::F5, false, false, true, false, 0, 0, "\x1b[15;6~"));
    v.push(kb_esc(Key::F6, false, false, true, false, 0, 0, "\x1b[17;6~"));
    v.push(kb_esc(Key::F7, false, false, true, false, 0, 0, "\x1b[18;6~"));
    v.push(kb_esc(Key::F8, false, false, true, false, 0, 0, "\x1b[19;6~"));
    v.push(kb_esc(Key::F9, false, false, true, false, 0, 0, "\x1b[20;6~"));
    assert forall|i: int| 0 <= i < 10 implies key_binding_row(#[trigger] v@[i], 80 + i) by {
        assert(i == 0 || i == 1 || i == 2 || i == 3 || i == 4 || i == 5 || i == 6 || i == 7 || i == 8 || i == 9);
    }
    v
}

/// Rows 90 to 99 of the common key bindings.
fn common_key_bindings_from_90() -> (r: Vec<KeyBinding>)
    ensures
        r@.len() == 10,
        forall|i: int| 0 <= i < 10 ==> key_binding_row(#[trigger] r@[i], 90 + i),
{
    let mut v: Vec<KeyBinding> = Vec::new();
    v.push(kb_esc(Key::F10, false, false, true, false, 0, 0, "\x1b[21;6~"));
    v.push(kb_esc(Key::F11, false, false, true, false, 0, 0, "\x1b[23;6~"));
    v.push(kb_esc(Key::F12, false, false, true, false, 0, 0, "\x1b[24;6~"));
    v.push(kb_esc(Key::F1, false, false, false, true, 0, 0, "\x1b[1;3P"));
    v.push(kb_esc(Key::F2, false, false, false, true, 0, 0, "\x1b[1;3Q"));
    v.push(kb_esc(Key::F3, false, false, false, true, 0, 0, "\x1b[1;3R"));
    v.push(kb_esc(Key::F4, false, false, false, true, 0, 0, "\x1b[1;3S"));
    v.push(kb_esc(Key::F5, false, false, false, true, 0, 0, "\x1b[15;3~"));
    v.push(kb_esc(Key::F6, false, false, false, true, 0, 0, "\x1b[17;3~"));
    v.push(kb_esc(Key::F7, false, false, false, true, 0, 0, "\x1b[18;3~"));
    assert forall|i: int| 0 <= i < 10 implies key_binding_row(#[trigger] v@[i], 90 + i) by {
        assert(i == 0 || i == 1 || i == 2 || i == 3 || i == 4 || i == 5 || i == 6 || i == 7 || i == 8 || i == 9);
    }
    v
}

/// Rows 100 to 105 of the common key bindings.
fn common_key_bindings_from_100() -> (r: Vec<KeyBinding>)
    ensures
        r@.len() == 6,
        forall|i: int| 0 <= i < 6 ==> key_binding_row(#[trigger] r@[i], 100 + i),
{
    let mut v: Vec<KeyBinding> = Vec::new();
    v.push(kb_esc(Key::F8, false, false, false, true, 0, 0, "\x1b[19;3~"));
    v.push(kb_esc(Key::F9, false, false, false, true, 0, 0, "\x1b[20;3~"));
    v.push(kb_esc(Key::F10, false, false, false, true, 0, 0, "\x1b[21;3~"));
    v.push(kb_esc(Key::F11, false, false, false, true, 0, 0, "\x1b[23;3~"));
    v.push(kb_esc(Key::F12, false, false, false, true, 0, 0, "\x1b[24;3~"));
    v.push(kb_esc(Key::NumpadEnter, false, false, false, false, 0, 0, "\n"));
    assert forall|i: int| 0 <= i < 6 implies key_binding_row(#[trigger] v@[i], 100 + i) by {
        assert(i == 0 || i == 1 || i == 2 || i == 3 || i == 4 || i == 5);
    }
    v
}

/// The key bindings common to all platforms.
fn common_key_bindings() -> (r: Vec<KeyBinding>)
    ensures
        r@.len() == 106,
        forall|i: int| 0 <= i < 106 ==> key_binding_row(#[trigger] r@[i], i),
{
    let mut v = common_key_bindings_from_0();
    let ghost prev = v@;
    let mut part = common_key_bindings_from_10();
    let ghost added = part@;
    v.append(&mut part);
    assert forall|i: int| 0 <= i < 20 implies key_binding_row(#[trigger] v@[i], i) by {
        if i < 10 {
            assert(v@[i] == prev[i]);
        } else {
            assert(v@[i] == added[i - 10]);
        }
    }
    let ghost prev = v@;
    let mut part = common_key_bindings_from_20();
    let ghost added = part@;
    v.append(&mut part);
    assert forall|i: int| 0 <= i < 30 implies key_binding_row(#[trigger] v@[i], i) by {
        if i < 20 {
            assert(v@[i] == prev[i]);
        } else {
            assert(v@[i] == added[i - 20]);
        }
    }
    let ghost prev = v@;
    let mut part = common_key_bindings_from_30();
    let ghost added = part@;
    v.append(&mut part);
    assert forall|i: int| 0 <= i < 40 implies key_binding_row(#[trigger] v@[i], i) by {
        if i < 30 {
            assert(v@[i] == prev[i]);
        } else {
            assert(v@[i] == added[i - 30]);
        }
    }
    let ghost prev = v@;
    let mut part = common_key_bindings_from_40();
    let ghost added = part@;
    v.append(&mut part);
    assert forall|i: int| 0 <= i < 50 implies key_binding_row(#[trigger] v@[i], i) by {
        if i < 40 {
            assert(v@[i] == prev[i]);
        } else {
            assert(v@[i] == added[i - 40]);
        }
    }
    let ghost prev = v@;
    let mut part = common_key_bindings_from_50();
    let ghost added = part@;
    v.append(&mut part);
    assert forall|i: int| 0 <= i < 60 implies key_binding_row(#[trigger] v@[i], i) by {
        if i < 50 {
            assert(v@[i] == prev[i]);
        } else {
            assert(v@[i] == added[i - 50]);
        }
    }
    let ghost prev = v@;
    let mut part = common_key_bindings_from_60();
    let ghost added = part@;
    v.append(&mut part);
    assert forall|i: int| 0 <= i < 70 implies key_binding_row(#[trigger] v@[i], i) by {
        if i < 60 {
            assert(v@[i] == prev[i]);
        } else {
            assert(v@[i] == added[i - 60]);
        }
    }
    let ghost prev = v@;
    let mut part = common_key_bindings_from_70();
    let ghost added = part@;
    v.append(&mut part);
    assert forall|i: int| 0 <= i < 80 implies key_binding_row(#[trigger] v@[i], i) by {
        if i < 70 {
            assert(v@[i] == prev[i]);
        } else {
            assert(v@[i] == added[i - 70]);
        }
    }
    let ghost prev = v@;
    let mut part = common_key_bindings_from_80();
    let ghost added = part@;
    v.append(&mut part);
    assert forall|i: int| 0 <= i < 90 implies key_binding_row(#[trigger] v@[i], i) by {
        if i < 80 {
            assert(v@[i] == prev[i]);
        } else {
            assert(v@[i] == added[i - 80]);
        }
    }
    let ghost prev = v@;
    let mut part = common_key_bindings_from_90();
    let ghost added = part@;
    v.append(&mut part);
    assert forall|i: int| 0 <= i < 100 implies key_binding_row(#[trigger] v@[i], i) by {
        if i < 90 {
            assert(v@[i] == prev[i]);
        } else {
            assert(v@[i] == added[i - 90]);
        }
    }
    let ghost prev = v@;
    let mut part = common_key_bindings_from_100();
    let ghost added = part@;
    v.append(&mut part);
    assert forall|i: int| 0 <= i < 106 implies key_binding_row(#[trigger] v@[i], i) by {
        if i < 100 {
            assert(v@[i] == prev[i]);
        } else {
            assert(v@[i] == added[i - 100]);
        }
    }
    v
}

/// The default key bindings: the common ones, then those of this platform.
pub fn default_key_bindings() -> (r: Vec<KeyBinding>)
    ensures
        r@.len() == 113,
        forall|i: int| 0 <= i < 106 ==> key_binding_row(#[trigger] r@[i], i),
        forall|i: int| 106 <= i < 113 ==> platform_key_binding_row(#[trigger] r@[i], i - 106),
{
    let mut bindings = common_key_bindings();
    let mut platform = platform_key_bindings();
    let ghost common = bindings@;
    let ghost plat = platform@;
    bindings.append(&mut platform);
    assert forall|i: int| 106 <= i < 113 implies platform_key_binding_row(#[trigger] bindings@[i], i - 106) by {
        assert(bindings@[i] == plat[i - 106]);
    }
    assert forall|i: int| 0 <= i < 106 implies key_binding_row(#[trigger] bindings@[i], i) by {
        assert(bindings@[i] == common[i]);
    }
    bindings
}

/// A configured binding overrides `b` when one of them has the same
/// trigger, modes and modifiers.
pub open spec fn overridden<T>(b: Binding<T>, user: Seq<Binding<T>>) -> bool {
    exists|j: int| 0 <= j < user.len() && b.spec_triggers_match(&#[trigger] user[j])
}

fn is_overridden<T: Trigger>(b: &Binding<T>, user: &Vec<Binding<T>>) -> (r: bool)
    ensures
        r == overridden(*b, user@),
{
    let mut j: usize = 0;
    while j < user.len()
        invariant
            j <= user@.len(),
            forall|k: int| 0 <= k < j ==> !b.spec_triggers_match(&#[trigger] user@[k]),
        decreases user@.len() - j,
    {
        if b.triggers_match(&user[j]) {
            return true;
        }
        j = j + 1;
    }
    false
}

/// The bindings in effect: the configured ones, then each default binding
/// that no configured binding overrides, in their order.
pub fn merge_bindings<T: Trigger>(user: Vec<Binding<T>>, default: Vec<Binding<T>>) -> (r: Vec<Binding<T>>)
    ensures
        r@ == user@ + default@.filter(|b: Binding<T>| !overridden(b, user@)),
{
    let ghost d = default@;
    let ghost p = |b: Binding<T>| !overridden(b, user@);
    let mut kept: Vec<Binding<T>> = Vec::new();
    let mut rest = default;
    let total = rest.len();
    let mut i: usize = 0;
    while rest.len() > 0
        invariant
            i + rest@.len() == d.len(),
            d.len() == total,
            rest@ == d.subrange(i as int, d.len() as int),
            kept@ == d.subrange(0, i as int).filter(p),
            p == (|b: Binding<T>| !overridden(b, user@)),
        decreases rest@.len(),
    {
        let b = rest.remove(0);
        proof {
            lemma_filter_step(d, i as int, p);
        }
        if !is_overridden(&b, &user) {
            kept.push(b);
        }
        i = i + 1;
    }
    assert(d.subrange(0, d.len() as int) == d);
    let mut out = user;
    out.append(&mut kept);
    out
}

/// The bindings in effect after `user` replaces some of `default`.
pub open spec fn merged<T>(user: Seq<Binding<T>>, default: Seq<Binding<T>>) -> Seq<Binding<T>> {
    user + default.filter(|b: Binding<T>| !overridden(b, user))
}

/// Every configured binding stays in effect, in its place; each default
/// binding that no configured binding overrides stays in effect too, and
/// every other binding in effect is such a default binding.
pub proof fn merged_bindings_keep_user_and_unmatched_defaults<T>(
    user: Seq<Binding<T>>,
    default: Seq<Binding<T>>,
    b: Binding<T>,
)
    ensures
        merged(user, default).subrange(0, user.len() as int) == user,
        default.contains(b) && !overridden(b, user) ==> merged(user, default).contains(b),
        forall|k: int|
            user.len() <= k < merged(user, default).len() ==> default.contains(
                #[trigger] merged(user, default)[k],
            ) && !overridden(merged(user, default)[k], user),
{
    let p = |x: Binding<T>| !overridden(x, user);
    let f = default.filter(p);
    let all = user + f;
    assert(all.subrange(0, user.len() as int) == user);
    if default.contains(b) && !overridden(b, user) {
        let i = choose|i: int| 0 <= i < default.len() && default[i] == b;
        default.lemma_filter_contains(p, i);
        let k = choose|k: int| 0 <= k < f.len() && f[k] == b;
        assert(all[user.len() + k] == b);
    }
    assert forall|k: int| user.len() <= k < all.len() implies default.contains(#[trigger] all[k])
        && !overridden(all[k], user) by {
        assert(all[k] == f[k - user.len()]);
        default.lemma_filter_pred(p, k - user.len());
        assert(f.contains(all[k]));
        default.lemma_filter_contains_rev(p, all[k]);
    }
}

} // verus!
