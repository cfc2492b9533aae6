//! Key and mouse bindings: which binding an input triggers, and the bytes
//! that a paste sends to the pty.
use vstd::prelude::*;

use crate::config::Key;
use crate::event::ClickState;
use crate::index::{Column, Line};
use crate::io::encode_char;
use crate::util::lemma_filter_step;
use vstd::utf8::encode_scalar;

verus! {

/// The state of the modifier keys.
#[derive(Debug, Clone, Copy, PartialEq, Eq, Structural, Hash, Default)]
pub struct ModifiersState {
    pub shift: bool,
    pub ctrl: bool,
    pub alt: bool,
    pub logo: bool,
}

impl ModifiersState {
    /// Every modifier of `self` is present in `other`; surplus modifiers of
    /// `other` are ignored.
    pub open spec fn spec_relaxed_eq(self, other: ModifiersState) -> bool {
        (!self.logo || other.logo) && (!self.alt || other.alt) && (!self.ctrl || other.ctrl)
            && (!self.shift || other.shift)
    }

    /// Make sure that modifiers in the config are always present,
    /// but ignore surplus modifiers.
    pub fn relaxed_eq(&self, other: ModifiersState) -> (r: bool)
        ensures
            r == self.spec_relaxed_eq(other),
    {
        (!self.logo || other.logo) && (!self.alt || other.alt) && (!self.ctrl || other.ctrl)
            && (!self.shift || other.shift)
    }
}

/// A relaxed match needs every modifier of the binding to be held, each of
/// shift, control, alt and logo, and lets surplus held modifiers through:
/// holding more never undoes a match, and an exact match is a relaxed one.
pub proof fn relaxed_match_needs_binding_mods(a: ModifiersState, b: ModifiersState, c: ModifiersState)
    ensures
        a.spec_relaxed_eq(b) <==> ((a.shift ==> b.shift) && (a.ctrl ==> b.ctrl) && (a.alt ==> b.alt) && (
        a.logo ==> b.logo)),
        a.spec_relaxed_eq(a),
        a.spec_relaxed_eq(b) && (b.shift ==> c.shift) && (b.ctrl ==> c.ctrl) && (b.alt ==> c.alt) && (b.logo
            ==> c.logo) ==> a.spec_relaxed_eq(c),
{
}

/// A mouse button.
#[derive(Debug, Clone, Copy, PartialEq, Eq, Structural, Hash)]
pub enum MouseButton {
    Left,
    Right,
    Middle,
    Other(u8),
}

/// A set of terminal modes, as bits.
#[derive(Debug, Clone, Copy, PartialEq, Eq, Structural, Hash)]
pub struct TermMode {
    pub bits: u16,
}

impl TermMode {
    /// The empty set of modes.
    pub fn empty() -> (r: TermMode)
        ensures
            r.bits == 0,
    {
        TermMode { bits: 0 }
    }

    /// Whether no mode is set.
    pub fn is_empty(&self) -> (r: bool)
        ensures
            r == (self.bits == 0),
    {
        self.bits == 0
    }

    /// Whether the two sets share a mode.
    pub fn intersects(&self, other: TermMode) -> (r: bool)
        ensures
            r == (self.bits & other.bits != 0),
    {
        self.bits & other.bits != 0
    }

    /// Whether every mode of `other` is set in `self`.
    pub fn contains(&self, other: TermMode) -> (r: bool)
        ensures
            r == (self.bits & other.bits == other.bits),
    {
        self.bits & other.bits == other.bits
    }

    /// The union of two sets of modes.
    pub fn union(&self, other: TermMode) -> (r: TermMode)
        ensures
            r.bits == self.bits | other.bits,
    {
        TermMode { bits: self.bits | other.bits }
    }
}

/// What a binding does when it is triggered.
#[derive(Debug, Clone, PartialEq, Eq)]
pub enum Action {
    /// Write an escape sequence
    Esc(String),
    /// Paste contents of system clipboard
    Paste,
    /// Store current selection into clipboard
    Copy,
    /// Paste contents of selection buffer
    PasteSelection,
    /// Increase font size
    IncreaseFontSize,
    /// Decrease font size
    DecreaseFontSize,
    /// Reset font size to the config value
    ResetFontSize,
    /// Scroll exactly one page up
    ScrollPageUp,
    /// Scroll exactly one page down
    ScrollPageDown,
    /// Scroll all the way to the top
    ScrollToTop,
    /// Scroll all the way to the bottom
    ScrollToBottom,
    /// Clear the display buffer(s) to remove history
    ClearHistory,
    /// Run given command
    Command(String, Vec<String>),
    /// Hides the window
    Hide,
    /// Quits the program.
    Quit,
    /// Clears warning and error notices.
    ClearLogNotice,
    /// Spawn a new instance of the program.
    SpawnNewInstance,
    /// No action.
    Nothing,
}

impl Default for Action {
    fn default() -> (r: Action)
        ensures
            r is Nothing,
    {
        Action::Nothing
    }
}

/// An input that can trigger a binding, compared by value.
pub trait Trigger: Sized {
    /// Whether two triggers are the same.
    fn same(&self, other: &Self) -> (r: bool)
        ensures
            r == (*self == *other),
    ;
}

impl Trigger for Key {
    fn same(&self, other: &Self) -> (r: bool) {
        *self == *other
    }
}

impl Trigger for MouseButton {
    fn same(&self, other: &Self) -> (r: bool) {
        *self == *other
    }
}

/// Describes a state and action to take in that state.
///
/// This is the shared component of `MouseBinding` and `KeyBinding`.
#[derive(Debug, Clone)]
pub struct Binding<T> {
    /// Modifier keys required to activate binding
    pub mods: ModifiersState,
    /// String to send to pty if mods and mode match
    pub action: Action,
    /// Terminal mode required to activate binding
    pub mode: TermMode,
    /// excluded terminal modes where the binding won't be activated
    pub notmode: TermMode,
    /// The key or mouse button that triggers the binding.
    pub trigger: T,
}

/// Bindings that are triggered by a keyboard key
pub type KeyBinding = Binding<Key>;

/// Bindings that are triggered by a mouse button
pub type MouseBinding = Binding<MouseButton>;

impl Default for Binding<Key> {
    fn default() -> (r: Binding<Key>)
        ensures
            r.mods == (ModifiersState { shift: false, ctrl: false, alt: false, logo: false }),
            (r.action matches Action::Esc(s) && s@.len() == 0),
            r.mode.bits == 0,
            r.notmode.bits == 0,
            r.trigger == Key::A,
    {
        Binding {
            mods: ModifiersState { shift: false, ctrl: false, alt: false, logo: false },
            action: Action::Esc(String::new()),
            mode: TermMode::empty(),
            notmode: TermMode::empty(),
            trigger: Key::A,
        }
    }
}

impl Default for Binding<MouseButton> {
    fn default() -> (r: Binding<MouseButton>)
        ensures
            r.mods == (ModifiersState { shift: false, ctrl: false, alt: false, logo: false }),
            (r.action matches Action::Esc(s) && s@.len() == 0),
            r.mode.bits == 0,
            r.notmode.bits == 0,
            r.trigger == MouseButton::Left,
    {
        Binding {
            mods: ModifiersState { shift: false, ctrl: false, alt: false, logo: false },
            action: Action::Esc(String::new()),
            mode: TermMode::empty(),
            notmode: TermMode::empty(),
            trigger: MouseButton::Left,
        }
    }
}

impl<T> Binding<T> {
    /// The binding applies in `mode`: it asks for no mode, or for one that is set.
    pub open spec fn spec_mode_matches(&self, mode: TermMode) -> bool {
        self.mode.bits == 0 || mode.bits & self.mode.bits != 0
    }

    /// `mode` holds none of the binding's excluded modes.
    pub open spec fn spec_not_mode_matches(&self, mode: TermMode) -> bool {
        self.notmode.bits == 0 || mode.bits & self.notmode.bits == 0
    }

    /// The modifiers match exactly or, when `relaxed`, the binding's are all held.
    pub open spec fn spec_mods_match(&self, mods: ModifiersState, relaxed: bool) -> bool {
        if relaxed {
            self.mods.spec_relaxed_eq(mods)
        } else {
            self.mods == mods
        }
    }

    /// The binding fires on this input in this mode with these modifiers.
    pub open spec fn spec_triggered_by(
        &self,
        mode: TermMode,
        mods: ModifiersState,
        input: T,
        relaxed: bool,
    ) -> bool {
        &&& self.trigger == input
        &&& self.spec_mode_matches(mode)
        &&& self.spec_not_mode_matches(mode)
        &&& self.spec_mods_match(mods, relaxed)
    }

    /// Two bindings react to the same input in the same modes.
    pub open spec fn spec_triggers_match(&self, other: &Binding<T>) -> bool {
        &&& self.trigger == other.trigger
        &&& self.mode == other.mode
        &&& self.notmode == other.notmode
        &&& self.mods == other.mods
    }

    pub fn mode_matches(&self, mode: TermMode) -> (r: bool)
        ensures
            r == self.spec_mode_matches(mode),
    {
        self.mode.is_empty() || mode.intersects(self.mode)
    }

    pub fn not_mode_matches(&self, mode: TermMode) -> (r: bool)
        ensures
            r == self.spec_not_mode_matches(mode),
    {
        self.notmode.is_empty() || !mode.intersects(self.notmode)
    }

    /// Check that two mods descriptions for equivalence
    pub fn mods_match(&self, mods: ModifiersState, relaxed: bool) -> (r: bool)
        ensures
            r == self.spec_mods_match(mods, relaxed),
    {
        if relaxed {
            self.mods.relaxed_eq(mods)
        } else {
            self.mods == mods
        }
    }
}

impl<T: Trigger> Binding<T> {
    pub fn is_triggered_by(
        &self,
        mode: TermMode,
        mods: ModifiersState,
        input: &T,
        relaxed: bool,
    ) -> (r: bool)
        ensures
            r == self.spec_triggered_by(mode, mods, *input, relaxed),
    {
        // Check input first since bindings are stored in one big list. This is
        // the most likely item to fail so prioritizing it here allows more
        // checks to be short circuited.
        self.trigger.same(input) && self.mode_matches(mode) && self.not_mode_matches(mode)
            && self.mods_match(mods, relaxed)
    }

    pub fn triggers_match(&self, binding: &Binding<T>) -> (r: bool)
        ensures
            r == self.spec_triggers_match(binding),
    {
        self.trigger.same(&binding.trigger) && self.mode == binding.mode && self.notmode
            == binding.notmode && self.mods == binding.mods
    }
}

/// A binding triggered with relaxed modifiers (as mouse bindings are)
/// fires only when each modifier it names is held: a binding with shift,
/// control, alt or logo does not fire without that key.
pub proof fn relaxed_trigger_needs_binding_mods<T>(
    b: Binding<T>,
    mode: TermMode,
    mods: ModifiersState,
    input: T,
)
    ensures
        b.spec_triggered_by(mode, mods, input, true) ==> {
            &&& b.mods.shift ==> mods.shift
            &&& b.mods.ctrl ==> mods.ctrl
            &&& b.mods.alt ==> mods.alt
            &&& b.mods.logo ==> mods.logo
        },
        b.spec_triggered_by(mode, mods, input, false) ==> b.mods == mods,
{
}

/// Bindings that `triggers_match` is an equivalence on: every binding
/// matches itself, and matching is symmetric and transitive.
pub proof fn triggers_match_is_equivalence<T>(a: Binding<T>, b: Binding<T>, c: Binding<T>)
    ensures
        a.spec_triggers_match(&a),
        a.spec_triggers_match(&b) == b.spec_triggers_match(&a),
        a.spec_triggers_match(&b) && b.spec_triggers_match(&c) ==> a.spec_triggers_match(&c),
{
}

/// Two bindings that match react to exactly the same inputs: a binding with
/// the same trigger, modes and modifiers is triggered whenever the other is.
pub proof fn matching_bindings_trigger_alike<T>(
    a: Binding<T>,
    b: Binding<T>,
    mode: TermMode,
    mods: ModifiersState,
    input: T,
    relaxed: bool,
)
    requires
        a.spec_triggers_match(&b),
    ensures
        a.spec_triggered_by(mode, mods, input, relaxed) == b.spec_triggered_by(
            mode,
            mods,
            input,
            relaxed,
        ),
{
}

/// Pasted text as the unbracketed mode sends it: each "\r\n" and each
/// remaining "\n" becomes a single "\r".
pub open spec fn newlines_to_cr(s: Seq<u8>) -> Seq<u8>
    decreases s.len(),
{
    if s.len() == 0 {
        s
    } else if s.len() >= 2 && s[0] == 0x0du8 && s[1] == 0x0au8 {
        seq![0x0du8] + newlines_to_cr(s.subrange(2, s.len() as int))
    } else if s[0] == 0x0au8 {
        seq![0x0du8] + newlines_to_cr(s.subrange(1, s.len() as int))
    } else {
        seq![s[0]] + newlines_to_cr(s.subrange(1, s.len() as int))
    }
}

/// The bytes that start a bracketed paste: ESC [ 2 0 0 ~.
pub open spec fn bracketed_paste_start() -> Seq<u8> {
    seq![0x1bu8, 0x5bu8, 0x32u8, 0x30u8, 0x30u8, 0x7eu8]
}

/// The bytes that end a bracketed paste: ESC [ 2 0 1 ~.
pub open spec fn bracketed_paste_end() -> Seq<u8> {
    seq![0x1bu8, 0x5bu8, 0x32u8, 0x30u8, 0x31u8, 0x7eu8]
}

/// What a paste of `contents` writes to the pty.
pub open spec fn paste_spec(contents: Seq<u8>, bracketed: bool) -> Seq<u8> {
    if bracketed {
        bracketed_paste_start() + contents.filter(|b: u8| b != 0x1bu8) + bracketed_paste_end()
    } else {
        newlines_to_cr(contents)
    }
}

/// A bracketed paste holds no ESC byte between its start and end markers,
/// so pasted text cannot end the paste early.
pub proof fn bracketed_paste_has_no_escape(contents: Seq<u8>)
    ensures
        forall|i: int|
            6 <= i < paste_spec(contents, true).len() - 6 ==> #[trigger] paste_spec(contents, true)[i]
                != 0x1bu8,
{
    let f = contents.filter(|b: u8| b != 0x1bu8);
    let p = paste_spec(contents, true);
    assert(p.len() == f.len() + 12);
    assert forall|i: int| 6 <= i < p.len() - 6 implies #[trigger] p[i] != 0x1bu8 by {
        assert(p[i] == f[i - 6]);
        contents.lemma_filter_pred(|b: u8| b != 0x1bu8, i - 6);
    }
}

fn push_all(out: &mut Vec<u8>, bytes: &[u8])
    ensures
        final(out)@ == old(out)@ + bytes@,
{
    let mut i: usize = 0;
    while i < bytes.len()
        invariant
            i <= bytes@.len(),
            out@ == old(out)@ + bytes@.subrange(0, i as int),
        decreases bytes@.len() - i,
    {
        out.push(bytes[i]);
        i = i + 1;
        assert(bytes@.subrange(0, i as int) == bytes@.subrange(0, i - 1) + seq![bytes@[i - 1]]);
    }
    assert(bytes@.subrange(0, bytes@.len() as int) == bytes@);
}

proof fn lemma_newlines_suffix(s: Seq<u8>, i: int)
    requires
        0 <= i < s.len(),
    ensures
        newlines_to_cr(s.subrange(i, s.len() as int)) == (if i + 1 < s.len() && s[i] == 0x0du8
            && s[i + 1] == 0x0au8 {
            seq![0x0du8] + newlines_to_cr(s.subrange(i + 2, s.len() as int))
        } else if s[i] == 0x0au8 {
            seq![0x0du8] + newlines_to_cr(s.subrange(i + 1, s.len() as int))
        } else {
            seq![s[i]] + newlines_to_cr(s.subrange(i + 1, s.len() as int))
        }),
{
    let t = s.subrange(i, s.len() as int);
    assert(t[0] == s[i]);
    if i + 1 < s.len() {
        assert(t[1] == s[i + 1]);
        assert(t.subrange(2, t.len() as int) == s.subrange(i + 2, s.len() as int));
    }
    assert(t.subrange(1, t.len() as int) == s.subrange(i + 1, s.len() as int));
}

/// The bytes that pasting `contents` writes to the pty: in bracketed paste
/// mode the contents, stripped of ESC bytes, between the start and end
/// markers; otherwise the contents with line breaks turned into carriage
/// returns.
pub fn paste_bytes(contents: &[u8], bracketed: bool) -> (r: Vec<u8>)
    ensures
        r@ == paste_spec(contents@, bracketed),
{
    let mut out: Vec<u8> = Vec::new();
    let s = Ghost(contents@);
    if bracketed {
        out.push(0x1b);
        out.push(0x5b);
        out.push(0x32);
        out.push(0x30);
        out.push(0x30);
        out.push(0x7e);
        assert(out@ == bracketed_paste_start());
        let mut i: usize = 0;
        while i < contents.len()
            invariant
                i <= contents@.len(),
                out@ == bracketed_paste_start() + contents@.subrange(0, i as int).filter(
                    |b: u8| b != 0x1bu8,
                ),
            decreases contents@.len() - i,
        {
            proof {
                lemma_filter_step(contents@, i as int, |b: u8| b != 0x1bu8);
            }
            if contents[i] != 0x1b {
                out.push(contents[i]);
            }
            i = i + 1;
        }
        assert(contents@.subrange(0, contents@.len() as int) == contents@);
        let end: [u8; 6] = [0x1b, 0x5b, 0x32, 0x30, 0x31, 0x7e];
        push_all(&mut out, &end);
        assert(end@ == bracketed_paste_end());
        out
    } else {
        let mut i: usize = 0;
        assert(contents@.subrange(0, contents@.len() as int) == contents@);
        while i < contents.len()
            invariant
                i <= contents@.len(),
                out@ + newlines_to_cr(contents@.subrange(i as int, contents@.len() as int))
                    == newlines_to_cr(contents@),
            decreases contents@.len() - i,
        {
            proof {
                lemma_newlines_suffix(contents@, i as int);
                if i + 2 <= contents@.len() {
                    assert(contents@.subrange(i as int, contents@.len() as int).len() >= 2);
                }
            }
            if i + 1 < contents.len() && contents[i] == 0x0d && contents[i + 1] == 0x0a {
                out.push(0x0d);
                i = i + 2;
            } else if contents[i] == 0x0a {
                out.push(0x0d);
                i = i + 1;
            } else {
                out.push(contents[i]);
                i = i + 1;
            }
        }
        assert(contents@.subrange(i as int, contents@.len() as int) == Seq::<u8>::empty());
        out
    }
}

/// The bits of the mode that reports mouse clicks.
pub const MOUSE_REPORT_CLICK_BITS: u16 = 8;

/// The bits of the mode that reports in the SGR encoding.
pub const SGR_MOUSE_BITS: u16 = 32;

/// The bits of the mode that reports mouse motion.
pub const MOUSE_MOTION_BITS: u16 = 64;

/// The bits of the mode that reports focus changes.
pub const FOCUS_IN_OUT_BITS: u16 = 2048;

/// The bits of the alternate screen mode.
pub const ALT_SCREEN_MODE_BITS: u16 = 4096;

/// The bits of the mode that reports mouse drags.
pub const MOUSE_DRAG_BITS: u16 = 8192;

/// The indices of the bindings that an input triggers, in order.
pub fn triggered_bindings<T: Trigger>(
    bindings: &[Binding<T>],
    mode: TermMode,
    mods: ModifiersState,
    input: &T,
    relaxed: bool,
) -> (r: Vec<usize>)
    ensures
        forall|k: int| 0 <= k < r@.len() ==> (#[trigger] r@[k] as int) < bindings@.len()
            && bindings@[r@[k] as int].spec_triggered_by(mode, mods, *input, relaxed),
        forall|k: int, l: int| 0 <= k < l < r@.len() ==> r@[k] < r@[l],
        forall|i: int| 0 <= i < bindings@.len() && #[trigger] bindings@[i].spec_triggered_by(mode, mods, *input, relaxed)
            ==> r@.contains(i as usize),
{
    let mut r: Vec<usize> = Vec::new();
    let mut i: usize = 0;
    while i < bindings.len()
        invariant
            i <= bindings@.len(),
            forall|k: int| 0 <= k < r@.len() ==> (#[trigger] r@[k] as int) < i
                && bindings@[r@[k] as int].spec_triggered_by(mode, mods, *input, relaxed),
            forall|k: int, l: int| 0 <= k < l < r@.len() ==> r@[k] < r@[l],
            forall|j: int| 0 <= j < i && #[trigger] bindings@[j].spec_triggered_by(mode, mods, *input, relaxed)
                ==> r@.contains(j as usize),
        decreases bindings@.len() - i,
    {
        if bindings[i].is_triggered_by(mode, mods, input, relaxed) {
            let ghost before = r@;
            r.push(i);
            assert forall|j: int| 0 <= j < i + 1 && #[trigger] bindings@[j].spec_triggered_by(mode, mods, *input, relaxed)
                implies r@.contains(j as usize) by {
                if j < i {
                    let k = choose|k: int| 0 <= k < before.len() && before[k] == j as usize;
                    assert(r@[k] == j as usize);
                } else {
                    assert(r@[before.len() as int] == i);
                }
            }
        }
        i = i + 1;
    }
    r
}

/// What held modifiers add to the button code of a mouse report: 4 for
/// shift, 8 for alt, 16 for control.
pub open spec fn mods_code_spec(mods: ModifiersState) -> nat {
    (if mods.shift { 4nat } else { 0nat }) + (if mods.alt { 8nat } else { 0nat }) + (if mods.ctrl {
        16nat
    } else {
        0nat
    })
}

/// The modifier code of a mouse report counts each held modifier on its
/// own: shift adds 4, alt adds 8 and control adds 16, whatever else is
/// held, and the logo key adds nothing.
pub proof fn mouse_modifier_codes(m: ModifiersState)
    ensures
        mods_code_spec(ModifiersState { shift: false, ctrl: false, alt: false, logo: m.logo }) == 0,
        mods_code_spec(ModifiersState { shift: true, ctrl: false, alt: false, logo: false }) == 4,
        mods_code_spec(ModifiersState { shift: false, ctrl: false, alt: true, logo: false }) == 8,
        mods_code_spec(ModifiersState { shift: false, ctrl: true, alt: false, logo: false }) == 16,
        mods_code_spec(m) == mods_code_spec(ModifiersState { shift: m.shift, ctrl: false, alt: false, logo: false })
            + mods_code_spec(ModifiersState { shift: false, ctrl: false, alt: m.alt, logo: false })
            + mods_code_spec(ModifiersState { shift: false, ctrl: m.ctrl, alt: false, logo: false }),
        mods_code_spec(m) == mods_code_spec(ModifiersState { logo: false, ..m }),
{
}

/// The modifier part of a mouse report's button code.
pub fn mouse_mods_code(mods: ModifiersState) -> (r: u8)
    ensures
        r == mods_code_spec(mods),
{
    let mut code: u8 = 0;
    if mods.shift {
        code = code + 4;
    }
    if mods.alt {
        code = code + 8;
    }
    if mods.ctrl {
        code = code + 16;
    }
    code
}

/// The decimal digits of `n`, as ASCII bytes.
pub open spec fn decimal_spec(n: nat) -> Seq<u8>
    decreases n,
{
    if n < 10 {
        seq![(0x30 + n) as u8]
    } else {
        decimal_spec(n / 10) + seq![(0x30 + n % 10) as u8]
    }
}

/// Appends the decimal digits of `n`.
fn push_decimal(out: &mut Vec<u8>, n: usize)
    ensures
        final(out)@ == old(out)@ + decimal_spec(n as nat),
    decreases n,
{
    if n >= 10 {
        push_decimal(out, n / 10);
    }
    out.push((0x30 + n % 10) as u8);
}

/// A mouse report in the normal encoding: ESC [ M, then the button code,
/// the column and the line, each plus 32, with column and line counted from
/// 1; none for a cell that the encoding cannot reach.
pub open spec fn normal_report_spec(button: u8, line: usize, col: usize) -> Option<Seq<u8>> {
    if line < 223 && col < 223 {
        Some(seq![0x1bu8, 0x5bu8, 0x4du8, (32 + button) as u8, (33 + col) as u8, (33 + line) as u8])
    } else {
        None
    }
}

/// Report a mouse event in the normal encoding.
pub fn normal_mouse_report(button: u8, line: Line, column: Column) -> (r: Option<Vec<u8>>)
    requires
        button <= 223,
    ensures
        normal_report_spec(button, line.0, column.0) is None ==> r is None,
        normal_report_spec(button, line.0, column.0) matches Some(b) ==> (r matches Some(v) && v@ == b),
{
    if line.0 < 223 && column.0 < 223 {
        Some(vec![0x1b, 0x5b, 0x4d, 32 + button, 32 + 1 + column.0 as u8, 32 + 1 + line.0 as u8])
    } else {
        None
    }
}

/// A mouse report in the SGR encoding: ESC [ <, the button code, ";", the
/// column, ";", the line, counted from 1, and "M" for a press or "m" for a
/// release.
pub open spec fn sgr_report_spec(button: u8, line: usize, col: usize, pressed: bool) -> Seq<u8> {
    seq![0x1bu8, 0x5bu8, 0x3cu8] + decimal_spec(button as nat) + seq![0x3bu8] + decimal_spec(
        (col + 1) as nat,
    ) + seq![0x3bu8] + decimal_spec((line + 1) as nat) + seq![
        if pressed {
            0x4du8
        } else {
            0x6du8
        },
    ]
}

/// An SGR mouse report starts with ESC [ <, ends with "M" for a press and
/// "m" for a release, and a press and a release of the same button at the
/// same cell differ only in that last byte. Buttons 0, 1 and 2 are the
/// left, middle and right button.
pub proof fn sgr_reports_mark_press_and_release(button: u8, line: usize, col: usize)
    ensures
        sgr_report_spec(button, line, col, true).last() == 0x4du8,
        sgr_report_spec(button, line, col, false).last() == 0x6du8,
        sgr_report_spec(button, line, col, true).drop_last() == sgr_report_spec(button, line, col, false).drop_last(),
        sgr_report_spec(button, line, col, true).take(3) == seq![0x1bu8, 0x5bu8, 0x3cu8],
        button_code_spec(MouseButton::Left) == Some(0u8),
        button_code_spec(MouseButton::Middle) == Some(1u8),
        button_code_spec(MouseButton::Right) == Some(2u8),
{
    let p = sgr_report_spec(button, line, col, true);
    let r = sgr_report_spec(button, line, col, false);
    assert(p.drop_last() =~= r.drop_last());
    assert(p.take(3) =~= seq![0x1bu8, 0x5bu8, 0x3cu8]);
}

/// Report a mouse event in the SGR encoding.
pub fn sgr_mouse_report(button: u8, line: Line, column: Column, pressed: bool) -> (r: Vec<u8>)
    requires
        line.0 < usize::MAX,
        column.0 < usize::MAX,
    ensures
        r@ == sgr_report_spec(button, line.0, column.0, pressed),
{
    let mut msg: Vec<u8> = vec![0x1b, 0x5b, 0x3c];
    push_decimal(&mut msg, button as usize);
    msg.push(0x3b);
    push_decimal(&mut msg, column.0 + 1);
    msg.push(0x3b);
    push_decimal(&mut msg, line.0 + 1);
    msg.push(if pressed { 0x4d } else { 0x6d });
    msg
}

/// The report of a mouse event: in the SGR encoding when that mode is set,
/// else in the normal encoding, where a release reports button code 3.
pub open spec fn mouse_report_spec(
    button: u8,
    pressed: bool,
    mods: ModifiersState,
    mode: TermMode,
    line: usize,
    col: usize,
) -> Option<Seq<u8>> {
    let m = mods_code_spec(mods);
    if mode.bits & SGR_MOUSE_BITS == SGR_MOUSE_BITS {
        Some(sgr_report_spec((button + m) as u8, line, col, pressed))
    } else if !pressed {
        normal_report_spec((3 + m) as u8, line, col)
    } else {
        normal_report_spec((button + m) as u8, line, col)
    }
}

/// The bytes that report a mouse event, if it can be reported.
pub fn mouse_report(
    button: u8,
    pressed: bool,
    mods: ModifiersState,
    mode: TermMode,
    line: Line,
    column: Column,
) -> (r: Option<Vec<u8>>)
    requires
        button <= 195,
        line.0 < usize::MAX,
        column.0 < usize::MAX,
    ensures
        mouse_report_spec(button, pressed, mods, mode, line.0, column.0) is None ==> r is None,
        mouse_report_spec(button, pressed, mods, mode, line.0, column.0) matches Some(b) ==> (r matches Some(
            v,
        ) && v@ == b),
{
    let m = mouse_mods_code(mods);
    if mode.contains(TermMode { bits: SGR_MOUSE_BITS }) {
        Some(sgr_mouse_report(button + m, line, column, pressed))
    } else if !pressed {
        normal_mouse_report(3 + m, line, column)
    } else {
        normal_mouse_report(button + m, line, column)
    }
}

/// The report of a focus change, when the terminal asks for them: ESC [ I
/// on gaining focus, ESC [ O on losing it.
pub fn focus_report(is_focused: bool, mode: TermMode) -> (r: Option<Vec<u8>>)
    ensures
        mode.bits & FOCUS_IN_OUT_BITS != FOCUS_IN_OUT_BITS ==> r is None,
        mode.bits & FOCUS_IN_OUT_BITS == FOCUS_IN_OUT_BITS ==> (r matches Some(v) && v@ == seq![
            0x1bu8,
            0x5bu8,
            if is_focused {
                0x49u8
            } else {
                0x4fu8
            },
        ]),
{
    if mode.contains(TermMode { bits: FOCUS_IN_OUT_BITS }) {
        Some(vec![0x1b, 0x5b, if is_focused { 0x49 } else { 0x4f }])
    } else {
        None
    }
}

/// What a scroll of the mouse wheel does.
#[derive(Debug, Clone, PartialEq, Eq)]
pub enum ScrollAction {
    /// Report the wheel to the application.
    Report(Option<Vec<u8>>),
    /// Send the application cursor keys instead.
    Faux(Vec<u8>),
    /// Scroll the display by `lines`, `times` times.
    Scroll { lines: isize, times: u8 },
}

/// `n` copies of the cursor key sequence ESC O `cmd`.
pub open spec fn faux_keys_spec(cmd: u8, n: nat) -> Seq<u8>
    decreases n,
{
    if n == 0 {
        Seq::empty()
    } else {
        faux_keys_spec(cmd, (n - 1) as nat) + seq![0x1bu8, 0x4fu8, cmd]
    }
}

/// What a wheel step with button code `code` (64 up, 65 down) does: it is
/// reported when the terminal reports the mouse; on the alternate screen,
/// with faux scrolling on and shift not held, it sends `faux_lines` cursor
/// key presses; else the display scrolls one line up or down, `multiplier`
/// times.
pub fn scroll_terminal(
    code: u8,
    mods: ModifiersState,
    mode: TermMode,
    faux_lines: usize,
    multiplier: u8,
    line: Line,
    column: Column,
) -> (r: ScrollAction)
    requires
        code == 64 || code == 65,
        line.0 < usize::MAX,
        column.0 < usize::MAX,
    ensures
        mode.bits & (MOUSE_REPORT_CLICK_BITS | MOUSE_DRAG_BITS | MOUSE_MOTION_BITS) != 0 ==> (r matches ScrollAction::Report(
            rep,
        ) && (mouse_report_spec(code, true, mods, mode, line.0, column.0) matches Some(b) ==> (rep matches Some(
            v,
        ) && v@ == b))),
        mode.bits & (MOUSE_REPORT_CLICK_BITS | MOUSE_DRAG_BITS | MOUSE_MOTION_BITS) == 0 && mode.bits
            & ALT_SCREEN_MODE_BITS == ALT_SCREEN_MODE_BITS && faux_lines > 0 && !mods.shift ==> (r matches ScrollAction::Faux(
            v,
        ) && v@ == faux_keys_spec((code + 1) as u8, faux_lines as nat)),
        mode.bits & (MOUSE_REPORT_CLICK_BITS | MOUSE_DRAG_BITS | MOUSE_MOTION_BITS) == 0 && !(mode.bits
            & ALT_SCREEN_MODE_BITS == ALT_SCREEN_MODE_BITS && faux_lines > 0 && !mods.shift) ==> r
            == (ScrollAction::Scroll { lines: if code == 64 { 1isize } else { -1isize }, times: multiplier }),
{
    let mouse_modes = TermMode { bits: MOUSE_REPORT_CLICK_BITS | MOUSE_DRAG_BITS | MOUSE_MOTION_BITS };
    if mode.intersects(mouse_modes) {
        ScrollAction::Report(mouse_report(code, true, mods, mode, line, column))
    } else if mode.contains(TermMode { bits: ALT_SCREEN_MODE_BITS }) && faux_lines > 0 && !mods.shift {
        let cmd = code + 1;
        let mut content: Vec<u8> = Vec::new();
        let mut i: usize = 0;
        while i < faux_lines
            invariant
                i <= faux_lines,
                content@ == faux_keys_spec(cmd, i as nat),
            decreases faux_lines - i,
        {
            content.push(0x1b);
            content.push(0x4f);
            content.push(cmd);
            i = i + 1;
        }
        ScrollAction::Faux(content)
    } else {
        // Button codes 64 and 65 become 1 and -1 lines to scroll.
        let lines: isize = if code == 64 { 1 } else { -1 };
        ScrollAction::Scroll { lines, times: multiplier }
    }
}

/// The bytes that typing `c` sends: its UTF-8 encoding, after an ESC when
/// alt sends escape, alt is held, it is the first character since the key
/// press, and its encoding is one byte long.
pub fn received_char_bytes(c: char, alt_send_esc: bool, received_count: usize, alt: bool) -> (r: Vec<u8>)
    ensures
        r@ == (if alt_send_esc && received_count == 0 && alt && encode_scalar(c as u32).len() == 1 {
            seq![0x1bu8] + encode_scalar(c as u32)
        } else {
            encode_scalar(c as u32)
        }),
{
    let bytes = encode_char(c);
    if alt_send_esc && received_count == 0 && alt && bytes.len() == 1 {
        let mut out: Vec<u8> = vec![0x1b];
        out.push(bytes[0]);
        assert(out@ == seq![0x1bu8] + bytes@);
        out
    } else {
        bytes
    }
}

/// The report modes: clicks, drags or motion.
pub open spec fn report_modes_spec(mode: TermMode) -> bool {
    mode.bits & (MOUSE_REPORT_CLICK_BITS | MOUSE_DRAG_BITS | MOUSE_MOTION_BITS) != 0
}

/// The button code that reports a button: 0 for left, 1 for middle, 2 for
/// right; other buttons cannot be reported.
pub open spec fn button_code_spec(button: MouseButton) -> Option<u8> {
    match button {
        MouseButton::Left => Some(0u8),
        MouseButton::Middle => Some(1u8),
        MouseButton::Right => Some(2u8),
        MouseButton::Other(_) => None,
    }
}

/// The button code of a reportable button.
pub fn button_code(button: MouseButton) -> (r: Option<u8>)
    ensures
        r == button_code_spec(button),
{
    match button {
        MouseButton::Left => Some(0),
        MouseButton::Middle => Some(1),
        MouseButton::Right => Some(2),
        MouseButton::Other(_) => None,
    }
}

/// What a mouse button press does.
#[derive(Debug, Clone, Copy, PartialEq, Eq, Structural)]
pub enum PressEffect {
    /// A second click of the left button selects the word under the mouse.
    DoubleClick,
    /// A third click of the left button selects the line under the mouse.
    TripleClick,
    /// A single click starts a new, empty selection; when the terminal
    /// reports clicks and shift is not held, it also reports the button
    /// (with its code, if it has one) and the click state stays as it was.
    Click { report: bool, code: Option<u8> },
}

/// The click state after a press, and what the press does. A press of the
/// same button within the threshold of the last click makes a double click,
/// and one within the threshold of a double click a triple click.
pub open spec fn press_spec(
    state: ClickState,
    button_changed: bool,
    elapsed_ms: u64,
    double_ms: u64,
    triple_ms: u64,
    shift: bool,
    mode: TermMode,
    button: MouseButton,
) -> (ClickState, PressEffect) {
    if state == ClickState::Click && !button_changed && elapsed_ms < double_ms {
        (ClickState::DoubleClick, PressEffect::DoubleClick)
    } else if state == ClickState::DoubleClick && !button_changed && elapsed_ms < triple_ms {
        (ClickState::TripleClick, PressEffect::TripleClick)
    } else if !shift && report_modes_spec(mode) {
        (state, PressEffect::Click { report: true, code: button_code_spec(button) })
    } else {
        (ClickState::Click, PressEffect::Click { report: false, code: None })
    }
}

/// Decides what a mouse button press does and the click state after it.
pub fn on_mouse_press(
    state: ClickState,
    button_changed: bool,
    elapsed_ms: u64,
    double_ms: u64,
    triple_ms: u64,
    shift: bool,
    mode: TermMode,
    button: MouseButton,
) -> (r: (ClickState, PressEffect))
    ensures
        r == press_spec(state, button_changed, elapsed_ms, double_ms, triple_ms, shift, mode, button),
{
    if state == ClickState::Click && !button_changed && elapsed_ms < double_ms {
        (ClickState::DoubleClick, PressEffect::DoubleClick)
    } else if state == ClickState::DoubleClick && !button_changed && elapsed_ms < triple_ms {
        (ClickState::TripleClick, PressEffect::TripleClick)
    } else if !shift && mode.intersects(
        TermMode { bits: MOUSE_REPORT_CLICK_BITS | MOUSE_DRAG_BITS | MOUSE_MOTION_BITS },
    ) {
        (state, PressEffect::Click { report: true, code: button_code(button) })
    } else {
        (ClickState::Click, PressEffect::Click { report: false, code: None })
    }
}

/// What a mouse button release does.
#[derive(Debug, Clone, Copy, PartialEq, Eq, Structural)]
pub struct ReleaseEffect {
    /// Report the release, with the button's code if it has one.
    pub report: Option<Option<u8>>,
    /// Open the URL under the mouse.
    pub launch_url: bool,
    /// Copy the selection to the clipboard.
    pub copy_to_clipboard: bool,
    /// Copy the selection to the selection buffer.
    pub copy_to_selection: bool,
}

/// A release is reported when the terminal reports clicks and shift is not
/// held, and does nothing else then; otherwise a release of the left button
/// opens the URL under the mouse, and every release copies the selection.
pub fn on_mouse_release(button: MouseButton, shift: bool, mode: TermMode, save_to_clipboard: bool) -> (r: ReleaseEffect)
    ensures
        !shift && report_modes_spec(mode) ==> r == (ReleaseEffect {
            report: Some(button_code_spec(button)),
            launch_url: false,
            copy_to_clipboard: false,
            copy_to_selection: false,
        }),
        !(!shift && report_modes_spec(mode)) ==> r == (ReleaseEffect {
            report: None,
            launch_url: button == MouseButton::Left,
            copy_to_clipboard: save_to_clipboard,
            copy_to_selection: true,
        }),
{
    if !shift && mode.intersects(
        TermMode { bits: MOUSE_REPORT_CLICK_BITS | MOUSE_DRAG_BITS | MOUSE_MOTION_BITS },
    ) {
        ReleaseEffect {
            report: Some(button_code(button)),
            launch_url: false,
            copy_to_clipboard: false,
            copy_to_selection: false,
        }
    } else {
        ReleaseEffect {
            report: None,
            launch_url: button == MouseButton::Left,
            copy_to_clipboard: save_to_clipboard,
            copy_to_selection: true,
        }
    }
}

/// The keyboard state that typed characters depend on.
#[derive(Debug, Clone, Copy, PartialEq, Eq, Structural)]
pub struct KeyState {
    /// The modifiers of the last key press.
    pub last_modifiers: ModifiersState,
    /// Characters received since the last key press.
    pub received_count: usize,
    /// Whether characters are dropped because a binding handled the key.
    pub suppress_chars: bool,
}

/// The keyboard state after a key press, where `binding_ran` tells whether
/// a binding handled it, or after a release.
pub fn process_key(state: KeyState, pressed: bool, mods: ModifiersState, binding_ran: bool) -> (r: KeyState)
    ensures
        pressed ==> r == (KeyState { last_modifiers: mods, received_count: 0, suppress_chars: binding_ran }),
        !pressed ==> r == (KeyState { suppress_chars: false, ..state }),
{
    if pressed {
        KeyState { last_modifiers: mods, received_count: 0, suppress_chars: binding_ran }
    } else {
        KeyState { suppress_chars: false, ..state }
    }
}


/// What a mouse move does.
#[derive(Debug, Clone, Copy, PartialEq, Eq, Structural)]
pub struct MoveEffect {
    /// The mouse left its cell or the side of it: no URL opens on release.
    pub block_url_launcher: bool,
    /// Extend the selection to the new cell.
    pub update_selection: bool,
    /// Report the motion with this button code.
    pub report: Option<u8>,
}

/// The motion modes: drags or all motion.
pub open spec fn motion_modes_spec(mode: TermMode) -> bool {
    mode.bits & (MOUSE_MOTION_BITS | MOUSE_DRAG_BITS) != 0
}

/// What a mouse move does, where `moved_cell` tells whether the mouse
/// changed its line or column, `side_changed` whether it changed the side
/// of the cell, and `inside` whether it is inside the terminal's area. With
/// the left button held, the selection follows the mouse unless the
/// terminal reports the mouse and shift is not held; otherwise a move to
/// another cell inside the area is reported in the motion modes, with the
/// code of the held button (left 32, middle 33, right 34) or, with no
/// button held, 35 when all motion is reported.
pub fn on_mouse_moved(
    moved_cell: bool,
    side_changed: bool,
    left_pressed: bool,
    middle_pressed: bool,
    right_pressed: bool,
    shift: bool,
    mode: TermMode,
    inside: bool,
) -> (r: MoveEffect)
    ensures
        r.block_url_launcher == (moved_cell || side_changed),
        r.update_selection == (left_pressed && (shift || !report_modes_spec(mode))),
        r.update_selection ==> r.report is None,
        !r.update_selection ==> r.report == (if motion_modes_spec(mode) && moved_cell && inside {
            if left_pressed {
                Some(32u8)
            } else if middle_pressed {
                Some(33u8)
            } else if right_pressed {
                Some(34u8)
            } else if mode.bits & MOUSE_MOTION_BITS == MOUSE_MOTION_BITS {
                Some(35u8)
            } else {
                None
            }
        } else {
            None
        }),
{
    let report_mode = TermMode { bits: MOUSE_REPORT_CLICK_BITS | MOUSE_DRAG_BITS | MOUSE_MOTION_BITS };
    let motion_mode = TermMode { bits: MOUSE_MOTION_BITS | MOUSE_DRAG_BITS };
    let block_url_launcher = moved_cell || side_changed;
    if left_pressed && (shift || !mode.intersects(report_mode)) {
        MoveEffect { block_url_launcher, update_selection: true, report: None }
    } else if mode.intersects(motion_mode) && moved_cell && inside {
        let report = if left_pressed {
            Some(32)
        } else if middle_pressed {
            Some(33)
        } else if right_pressed {
            Some(34)
        } else if mode.contains(TermMode { bits: MOUSE_MOTION_BITS }) {
            Some(35)
        } else {
            None
        };
        MoveEffect { block_url_launcher, update_selection: false, report }
    } else {
        MoveEffect { block_url_launcher, update_selection: false, report: None }
    }
}

/// The wheel steps that `px` pixels of scrolling make with cells `height`
/// pixels high: as many whole cells as they cover, up (64) when positive
/// and down (65) when negative.
pub open spec fn pixel_steps_spec(px: int, height: int) -> nat {
    if px >= 0 {
        (px / height) as nat
    } else {
        ((-px) / height) as nat
    }
}

proof fn lemma_mul_succ(k: int, h: int)
    ensures
        (k + 1) * h == k * h + h,
{
    assert((k + 1) * h == k * h + h) by (nonlinear_arith);
}

/// Adds `dy` pixels to the pixels `scroll_px` not yet scrolled, and takes
/// away one wheel step per whole cell: gives the pixels left over and the
/// button codes of the steps, in order.
pub fn pixel_scroll(scroll_px: i32, dy: i32, height: i32) -> (r: (i32, Vec<u8>))
    requires
        height > 0,
        i32::MIN < scroll_px + dy <= i32::MAX,
    ensures
        ({
            let px = scroll_px + dy;
            let n = pixel_steps_spec(px, height as int);
            &&& r.1@ == Seq::new(n, |i: int| if px > 0 { 64u8 } else { 65u8 })
            &&& r.0 == (if px >= 0 { px - n * height } else { px + n * height })
            &&& -height < r.0 < height
        }),
{
    let mut px = scroll_px + dy;
    let ghost start = px as int;
    let mut codes: Vec<u8> = Vec::new();
    assert(codes@.len() * height == 0) by {
        assert(codes@.len() == 0);
        assert(0 * (height as int) == 0);
    }
    if px >= 0 {
        while px >= height
            invariant
                height > 0,
                start >= 0,
                0 <= px <= start,
                start - px == codes@.len() * height,
                codes@ == Seq::new(codes@.len(), |i: int| 64u8),
            decreases px,
        {
            proof {
                lemma_mul_succ(codes@.len() as int, height as int);
            }
            px = px - height;
            codes.push(64);
            assert(codes@ == Seq::new(codes@.len(), |i: int| 64u8));
        }
    } else {
        while px <= -height
            invariant
                height > 0,
                start < 0,
                start <= px <= 0,
                px - start == codes@.len() * height,
                codes@ == Seq::new(codes@.len(), |i: int| 65u8),
            decreases -px,
        {
            proof {
                lemma_mul_succ(codes@.len() as int, height as int);
            }
            px = px + height;
            codes.push(65);
            assert(codes@ == Seq::new(codes@.len(), |i: int| 65u8));
        }
    }
    proof {
        let k = codes@.len() as int;
        let h = height as int;
        if start >= 0 {
            assert(start == k * h + px);
            assert(0 <= px < h);
            vstd::arithmetic::div_mod::lemma_fundamental_div_mod_converse(start, h, k, px as int);
        } else {
            assert(-start == k * h + (-px));
            assert(0 <= -px < h);
            vstd::arithmetic::div_mod::lemma_fundamental_div_mod_converse(-start, h, k, (-px) as int);
        }
    }
    (px, codes)
}

} // verus!
