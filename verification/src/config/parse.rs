//! Reading configuration values from their text: modifier lists, action and
//! mode names, mouse buttons, window decorations and hex colors, and the
//! rules that make a binding out of its fields.
use vstd::prelude::*;

use crate::config::{CommandWrapper, Decorations, Key};
use crate::input::{
    Action, Binding, KeyBinding, ModifiersState, MouseBinding, MouseButton, TermMode,
};
use crate::Rgb;

verus! {

/// The characters of a string, in order.
pub fn str_chars(s: &str) -> (v: Vec<char>)
    ensures
        v@ == s@,
{
    let n = s.unicode_len();
    let mut v: Vec<char> = Vec::new();
    let mut i: usize = 0;
    while i < n
        invariant
            i <= n,
            n == s@.len(),
            v@ == s@.subrange(0, i as int),
        decreases n - i,
    {
        v.push(s.get_char(i));
        i = i + 1;
    }
    v
}

/// Whether the characters `v[start..end]` are exactly those of `lit`.
pub fn chars_eq_str(v: &Vec<char>, start: usize, end: usize, lit: &str) -> (r: bool)
    requires
        start <= end <= v@.len(),
    ensures
        r == (v@.subrange(start as int, end as int) == lit@),
{
    let l = str_chars(lit);
    if end - start != l.len() {
        return false;
    }
    let mut i: usize = 0;
    while i < l.len()
        invariant
            i <= l@.len(),
            l@ == lit@,
            end - start == l@.len(),
            start <= end <= v@.len(),
            forall|j: int| 0 <= j < i ==> v@[start + j] == l@[j],
        decreases l@.len() - i,
    {
        if v[start + i] != l[i] {
            assert(v@.subrange(start as int, end as int)[i as int] == v@[start + i]);
            assert(v@.subrange(start as int, end as int)[i as int] != lit@[i as int]);
            return false;
        }
        i = i + 1;
    }
    assert(v@.subrange(start as int, end as int) == l@);
    true
}

/// Characters with the Unicode White_Space property.
pub open spec fn is_whitespace_spec(c: char) -> bool {
    let n = c as u32;
    (0x09 <= n <= 0x0d) || n == 0x20 || n == 0x85 || n == 0xa0 || n == 0x1680 || (0x2000 <= n
        <= 0x200a) || n == 0x2028 || n == 0x2029 || n == 0x202f || n == 0x205f || n == 0x3000
}

/// Whether `c` has the Unicode White_Space property.
pub fn is_whitespace(c: char) -> (r: bool)
    ensures
        r == is_whitespace_spec(c),
{
    let n = c as u32;
    (0x09 <= n && n <= 0x0d) || n == 0x20 || n == 0x85 || n == 0xa0 || n == 0x1680 || (0x2000
        <= n && n <= 0x200a) || n == 0x2028 || n == 0x2029 || n == 0x202f || n == 0x205f || n
        == 0x3000
}

/// Number of leading whitespace characters.
pub open spec fn leading_ws(s: Seq<char>) -> nat
    decreases s.len(),
{
    if s.len() > 0 && is_whitespace_spec(s[0]) {
        1 + leading_ws(s.drop_first())
    } else {
        0
    }
}

/// Number of trailing whitespace characters.
pub open spec fn trailing_ws(s: Seq<char>) -> nat
    decreases s.len(),
{
    if s.len() > 0 && is_whitespace_spec(s.last()) {
        1 + trailing_ws(s.drop_last())
    } else {
        0
    }
}

/// `s` without leading and trailing whitespace.
pub open spec fn trim_spec(s: Seq<char>) -> Seq<char> {
    let a = leading_ws(s);
    if a == s.len() {
        Seq::empty()
    } else {
        s.subrange(a as int, s.len() - trailing_ws(s))
    }
}

proof fn lemma_leading_ws_bound(s: Seq<char>)
    ensures
        leading_ws(s) <= s.len(),
        leading_ws(s) < s.len() ==> !is_whitespace_spec(s[leading_ws(s) as int]),
        forall|j: int| 0 <= j < leading_ws(s) ==> is_whitespace_spec(#[trigger] s[j]),
    decreases s.len(),
{
    if s.len() > 0 && is_whitespace_spec(s[0]) {
        let t = s.drop_first();
        lemma_leading_ws_bound(t);
        assert forall|j: int| 0 <= j < leading_ws(s) implies is_whitespace_spec(#[trigger] s[j]) by {
            if j > 0 {
                assert(s[j] == t[j - 1]);
            }
        }
    }
}

proof fn lemma_trailing_ws_bound(s: Seq<char>)
    ensures
        trailing_ws(s) <= s.len(),
        trailing_ws(s) < s.len() ==> !is_whitespace_spec(s[s.len() - 1 - trailing_ws(s)]),
        forall|j: int| s.len() - trailing_ws(s) <= j < s.len() ==> is_whitespace_spec(#[trigger] s[j]),
    decreases s.len(),
{
    if s.len() > 0 && is_whitespace_spec(s.last()) {
        let t = s.drop_last();
        lemma_trailing_ws_bound(t);
        assert forall|j: int| s.len() - trailing_ws(s) <= j < s.len() implies is_whitespace_spec(
            #[trigger] s[j],
        ) by {
            if j < s.len() - 1 {
                assert(s[j] == t[j]);
            }
        }
    }
}

/// The trimmed text is the part of `s` after its leading whitespace.
pub proof fn lemma_trim_infix(s: Seq<char>)
    ensures
        leading_ws(s) + trim_spec(s).len() <= s.len(),
        forall|i: int| 0 <= i < trim_spec(s).len() ==> #[trigger] trim_spec(s)[i] == s[leading_ws(s) + i],
{
    lemma_leading_ws_bound(s);
    lemma_trailing_ws_bound(s);
    let a = leading_ws(s);
    if a < s.len() {
        if trailing_ws(s) > s.len() - a - 1 {
            assert(is_whitespace_spec(s[a as int]));
        }
    }
}

proof fn lemma_leading_ws_unique(s: Seq<char>, k: int)
    requires
        0 <= k <= s.len(),
        forall|j: int| 0 <= j < k ==> is_whitespace_spec(#[trigger] s[j]),
        k < s.len() ==> !is_whitespace_spec(s[k]),
    ensures
        leading_ws(s) == k,
    decreases s.len(),
{
    if k > 0 {
        assert(is_whitespace_spec(s[0]));
        let t = s.drop_first();
        assert forall|j: int| 0 <= j < k - 1 implies is_whitespace_spec(#[trigger] t[j]) by {
            assert(t[j] == s[j + 1]);
        }
        lemma_leading_ws_unique(t, k - 1);
    }
}

proof fn lemma_trailing_ws_unique(s: Seq<char>, k: int)
    requires
        0 <= k <= s.len(),
        forall|j: int| s.len() - k <= j < s.len() ==> is_whitespace_spec(#[trigger] s[j]),
        k < s.len() ==> !is_whitespace_spec(s[s.len() - 1 - k]),
    ensures
        trailing_ws(s) == k,
    decreases s.len(),
{
    if k > 0 {
        assert(is_whitespace_spec(s[s.len() - 1]));
        let t = s.drop_last();
        assert forall|j: int| t.len() - (k - 1) <= j < t.len() implies is_whitespace_spec(
            #[trigger] t[j],
        ) by {
            assert(t[j] == s[j]);
        }
        lemma_trailing_ws_unique(t, k - 1);
    }
}

/// The bounds of `v[start..end]` without its leading and trailing whitespace.
pub fn trim_bounds(v: &Vec<char>, start: usize, end: usize) -> (r: (usize, usize))
    requires
        start <= end <= v@.len(),
    ensures
        start <= r.0 <= r.1 <= end,
        v@.subrange(r.0 as int, r.1 as int) == trim_spec(v@.subrange(start as int, end as int)),
{
    let ghost s = v@.subrange(start as int, end as int);
    let mut a = start;
    while a < end && is_whitespace(v[a])
        invariant
            start <= a <= end <= v@.len(),
            forall|j: int| start <= j < a ==> is_whitespace_spec(#[trigger] v@[j]),
        decreases end - a,
    {
        a = a + 1;
    }
    proof {
        assert forall|j: int| 0 <= j < a - start implies is_whitespace_spec(#[trigger] s[j]) by {
            assert(s[j] == v@[start + j]);
        }
        lemma_leading_ws_unique(s, a - start);
    }
    if a == end {
        assert(v@.subrange(a as int, a as int) == Seq::<char>::empty());
        return (a, a);
    }
    let mut b = end;
    while b > a && is_whitespace(v[b - 1])
        invariant
            start <= a < end,
            a <= b <= end <= v@.len(),
            !is_whitespace_spec(v@[a as int]),
            forall|j: int| b <= j < end ==> is_whitespace_spec(#[trigger] v@[j]),
        decreases b - a,
    {
        b = b - 1;
    }
    proof {
        assert forall|j: int| s.len() - (end - b) <= j < s.len() implies is_whitespace_spec(
            #[trigger] s[j],
        ) by {
            assert(s[j] == v@[start + j]);
        }
        if b > a {
            assert(s[s.len() - 1 - (end - b)] == v@[b - 1]);
        } else {
            assert(s[s.len() - 1 - (end - b)] == v@[a as int]);
        }
        lemma_trailing_ws_unique(s, end - b);
        assert(v@.subrange(a as int, b as int) == s.subrange(a - start, s.len() - (end - b)));
    }
    (a, b)
}

/// Index of the first `sep` in `s`, or its length when there is none.
pub open spec fn token_end(s: Seq<char>, sep: char) -> nat
    decreases s.len(),
{
    if s.len() == 0 || s[0] == sep {
        0
    } else {
        1 + token_end(s.drop_first(), sep)
    }
}

proof fn lemma_token_end(s: Seq<char>, sep: char, k: int)
    requires
        0 <= k <= s.len(),
        forall|j: int| 0 <= j < k ==> #[trigger] s[j] != sep,
        k < s.len() ==> s[k] == sep,
    ensures
        token_end(s, sep) == k,
    decreases s.len(),
{
    if k > 0 {
        let t = s.drop_first();
        assert forall|j: int| 0 <= j < k - 1 implies #[trigger] t[j] != sep by {
            assert(t[j] == s[j + 1]);
        }
        lemma_token_end(t, sep, k - 1);
    }
}

/// Finds the end of the token that starts at `start`.
fn find_sep(v: &Vec<char>, start: usize, sep: char) -> (e: usize)
    requires
        start <= v@.len(),
    ensures
        start <= e <= v@.len(),
        e - start == token_end(v@.subrange(start as int, v@.len() as int), sep),
{
    let mut e = start;
    while e < v.len() && v[e] != sep
        invariant
            start <= e <= v@.len(),
            forall|j: int| start <= j < e ==> #[trigger] v@[j] != sep,
        decreases v@.len() - e,
    {
        e = e + 1;
    }
    proof {
        let s = v@.subrange(start as int, v@.len() as int);
        assert forall|j: int| 0 <= j < e - start implies #[trigger] s[j] != sep by {
            assert(s[j] == v@[start + j]);
        }
        lemma_token_end(s, sep, e - start);
    }
    e
}

/// A modifier list sets each modifier that one of its `|`-separated, trimmed
/// names stands for; "None" and unknown names set nothing.
pub open spec fn apply_modifier(acc: ModifiersState, name: Seq<char>) -> ModifiersState {
    if name == "Command"@ || name == "Super"@ {
        ModifiersState { logo: true, ..acc }
    } else if name == "Shift"@ {
        ModifiersState { shift: true, ..acc }
    } else if name == "Alt"@ || name == "Option"@ {
        ModifiersState { alt: true, ..acc }
    } else if name == "Control"@ {
        ModifiersState { ctrl: true, ..acc }
    } else {
        acc
    }
}

/// Each modifier name sets its own modifier and nothing else: "Shift" the
/// shift key, "Control" control, "Alt" and "Option" alt, "Command" and
/// "Super" the logo key; "None" sets nothing.
pub proof fn modifier_names_set_their_key(acc: ModifiersState)
    ensures
        apply_modifier(acc, "Shift"@) == (ModifiersState { shift: true, ..acc }),
        apply_modifier(acc, "Control"@) == (ModifiersState { ctrl: true, ..acc }),
        apply_modifier(acc, "Alt"@) == (ModifiersState { alt: true, ..acc }),
        apply_modifier(acc, "Option"@) == (ModifiersState { alt: true, ..acc }),
        apply_modifier(acc, "Command"@) == (ModifiersState { logo: true, ..acc }),
        apply_modifier(acc, "Super"@) == (ModifiersState { logo: true, ..acc }),
        apply_modifier(acc, "None"@) == acc,
{
    reveal_strlit("Command");
    reveal_strlit("Super");
    reveal_strlit("Shift");
    reveal_strlit("Alt");
    reveal_strlit("Option");
    reveal_strlit("Control");
    reveal_strlit("None");
    assert("Super"@.len() != "Command"@.len());
    assert("Shift"@.len() != "Command"@.len());
    assert("Shift"@[1] != "Super"@[1]);
    assert("Alt"@.len() != "Command"@.len());
    assert("Alt"@.len() != "Super"@.len());
    assert("Alt"@.len() != "Shift"@.len());
    assert("Option"@.len() != "Command"@.len());
    assert("Option"@.len() != "Super"@.len());
    assert("Option"@.len() != "Shift"@.len());
    assert("Option"@.len() != "Alt"@.len());
    assert("Control"@[2] != "Command"@[2]);
    assert("Control"@.len() != "Super"@.len());
    assert("Control"@.len() != "Shift"@.len());
    assert("Control"@.len() != "Alt"@.len());
    assert("Control"@.len() != "Option"@.len());
    assert("None"@.len() != "Command"@.len());
    assert("None"@.len() != "Super"@.len());
    assert("None"@.len() != "Shift"@.len());
    assert("None"@.len() != "Alt"@.len());
    assert("None"@.len() != "Option"@.len());
    assert("None"@.len() != "Control"@.len());
}

/// The modifiers that the list `s` adds to `acc`.
pub open spec fn modifiers_spec(acc: ModifiersState, s: Seq<char>) -> ModifiersState
    decreases s.len(),
{
    let e = token_end(s, '|');
    let next = apply_modifier(acc, trim_spec(s.subrange(0, e as int)));
    if e >= s.len() {
        next
    } else {
        modifiers_spec(next, s.subrange(e as int + 1, s.len() as int))
    }
}

proof fn lemma_token_end_bound(s: Seq<char>, sep: char)
    ensures
        token_end(s, sep) <= s.len(),
    decreases s.len(),
{
    if s.len() > 0 && s[0] != sep {
        lemma_token_end_bound(s.drop_first(), sep);
    }
}

/// Parses a `|`-separated list of modifier names, such as "Control|Shift".
pub fn parse_modifiers(value: &str) -> (r: ModifiersState)
    ensures
        r == modifiers_spec(ModifiersState { shift: false, ctrl: false, alt: false, logo: false }, value@),
{
    let v = str_chars(value);
    let ghost s = v@;
    let mut res = ModifiersState { shift: false, ctrl: false, alt: false, logo: false };
    let mut pos: usize = 0;
    assert(s.subrange(0, s.len() as int) == s);
    loop
        invariant
            pos <= v@.len(),
            v@ == s,
            s == value@,
            modifiers_spec(res, s.subrange(pos as int, s.len() as int)) == modifiers_spec(
                ModifiersState { shift: false, ctrl: false, alt: false, logo: false },
                s,
            ),
        decreases v@.len() - pos,
    {
        let ghost rest = s.subrange(pos as int, s.len() as int);
        let e = find_sep(&v, pos, '|');
        let (a, b) = trim_bounds(&v, pos, e);
        proof {
            assert(rest.subrange(0, (e - pos) as int) == s.subrange(pos as int, e as int));
        }
        if chars_eq_str(&v, a, b, "Command") || chars_eq_str(&v, a, b, "Super") {
            res.logo = true;
        } else if chars_eq_str(&v, a, b, "Shift") {
            res.shift = true;
        } else if chars_eq_str(&v, a, b, "Alt") || chars_eq_str(&v, a, b, "Option") {
            res.alt = true;
        } else if chars_eq_str(&v, a, b, "Control") {
            res.ctrl = true;
        }
        if e >= v.len() {
            return res;
        }
        proof {
            assert(rest.subrange((e - pos) + 1, rest.len() as int) == s.subrange(
                e + 1,
                s.len() as int,
            ));
        }
        pos = e + 1;
    }
}

/// The binding action that a configured name stands for.
pub open spec fn action_spec(name: Seq<char>) -> Option<Action> {
    if name == "Paste"@ {
        Some(Action::Paste)
    } else if name == "Copy"@ {
        Some(Action::Copy)
    } else if name == "PasteSelection"@ {
        Some(Action::PasteSelection)
    } else if name == "IncreaseFontSize"@ {
        Some(Action::IncreaseFontSize)
    } else if name == "DecreaseFontSize"@ {
        Some(Action::DecreaseFontSize)
    } else if name == "ResetFontSize"@ {
        Some(Action::ResetFontSize)
    } else if name == "ScrollPageUp"@ {
        Some(Action::ScrollPageUp)
    } else if name == "ScrollPageDown"@ {
        Some(Action::ScrollPageDown)
    } else if name == "ScrollToTop"@ {
        Some(Action::ScrollToTop)
    } else if name == "ScrollToBottom"@ {
        Some(Action::ScrollToBottom)
    } else if name == "ClearHistory"@ {
        Some(Action::ClearHistory)
    } else if name == "Hide"@ {
        Some(Action::Hide)
    } else if name == "Quit"@ {
        Some(Action::Quit)
    } else if name == "ClearLogNotice"@ {
        Some(Action::ClearLogNotice)
    } else if name == "SpawnNewInstance"@ {
        Some(Action::SpawnNewInstance)
    } else if name == "None"@ {
        Some(Action::Nothing)
    } else {
        None
    }
}

/// The name under which the configuration writes an action; actions that
/// carry data (an escape sequence, a command) have none. `Nothing` is
/// written "None".
pub open spec fn action_name(a: Action) -> Option<Seq<char>> {
    match a {
        Action::Paste => Some("Paste"@),
        Action::Copy => Some("Copy"@),
        Action::PasteSelection => Some("PasteSelection"@),
        Action::IncreaseFontSize => Some("IncreaseFontSize"@),
        Action::DecreaseFontSize => Some("DecreaseFontSize"@),
        Action::ResetFontSize => Some("ResetFontSize"@),
        Action::ScrollPageUp => Some("ScrollPageUp"@),
        Action::ScrollPageDown => Some("ScrollPageDown"@),
        Action::ScrollToTop => Some("ScrollToTop"@),
        Action::ScrollToBottom => Some("ScrollToBottom"@),
        Action::ClearHistory => Some("ClearHistory"@),
        Action::Hide => Some("Hide"@),
        Action::Quit => Some("Quit"@),
        Action::ClearLogNotice => Some("ClearLogNotice"@),
        Action::SpawnNewInstance => Some("SpawnNewInstance"@),
        Action::Nothing => Some("None"@),
        _ => None,
    }
}

/// Reading an action's name gives that action back, and a name that reads
/// as an action is that action's name: each name stands for the action it
/// spells, and for no other.
pub proof fn action_names_round_trip(a: Action, name: Seq<char>)
    ensures
        action_name(a) matches Some(n) ==> action_spec(n) == Some(a),
        action_spec(name) matches Some(b) ==> action_name(b) == Some(name),
{
    reveal_strlit("Paste");
    reveal_strlit("Copy");
    reveal_strlit("PasteSelection");
    reveal_strlit("IncreaseFontSize");
    reveal_strlit("DecreaseFontSize");
    reveal_strlit("ResetFontSize");
    reveal_strlit("ScrollPageUp");
    reveal_strlit("ScrollPageDown");
    reveal_strlit("ScrollToTop");
    reveal_strlit("ScrollToBottom");
    reveal_strlit("ClearHistory");
    reveal_strlit("Hide");
    reveal_strlit("Quit");
    reveal_strlit("ClearLogNotice");
    reveal_strlit("SpawnNewInstance");
    reveal_strlit("None");
    match a {
        Action::Paste => {
            assert(action_spec("Paste"@) == Some(Action::Paste));
        },
        Action::Copy => {
            assert("Copy"@.len() != "Paste"@.len());
            assert(action_spec("Copy"@) == Some(Action::Copy));
        },
        Action::PasteSelection => {
            assert("PasteSelection"@.len() != "Paste"@.len());
            assert("PasteSelection"@.len() != "Copy"@.len());
            assert(action_spec("PasteSelection"@) == Some(Action::PasteSelection));
        },
        Action::IncreaseFontSize => {
            assert("IncreaseFontSize"@.len() != "Paste"@.len());
            assert("IncreaseFontSize"@.len() != "Copy"@.len());
            assert("IncreaseFontSize"@.len() != "PasteSelection"@.len());
            assert(action_spec("IncreaseFontSize"@) == Some(Action::IncreaseFontSize));
        },
        Action::DecreaseFontSize => {
            assert("DecreaseFontSize"@.len() != "Paste"@.len());
            assert("DecreaseFontSize"@.len() != "Copy"@.len());
            assert("DecreaseFontSize"@.len() != "PasteSelection"@.len());
            assert("DecreaseFontSize"@[0] != "IncreaseFontSize"@[0]);
            assert(action_spec("DecreaseFontSize"@) == Some(Action::DecreaseFontSize));
        },
        Action::ResetFontSize => {
            assert("ResetFontSize"@.len() != "Paste"@.len());
            assert("ResetFontSize"@.len() != "Copy"@.len());
            assert("ResetFontSize"@.len() != "PasteSelection"@.len());
            assert("ResetFontSize"@.len() != "IncreaseFontSize"@.len());
            assert("ResetFontSize"@.len() != "DecreaseFontSize"@.len());
            assert(action_spec("ResetFontSize"@) == Some(Action::ResetFontSize));
        },
        Action::ScrollPageUp => {
            assert("ScrollPageUp"@.len() != "Paste"@.len());
            assert("ScrollPageUp"@.len() != "Copy"@.len());
            assert("ScrollPageUp"@.len() != "PasteSelection"@.len());
            assert("ScrollPageUp"@.len() != "IncreaseFontSize"@.len());
            assert("ScrollPageUp"@.len() != "DecreaseFontSize"@.len());
            assert("ScrollPageUp"@.len() != "ResetFontSize"@.len());
            assert(action_spec("ScrollPageUp"@) == Some(Action::ScrollPageUp));
        },
        Action::ScrollPageDown => {
            assert("ScrollPageDown"@.len() != "Paste"@.len());
            assert("ScrollPageDown"@.len() != "Copy"@.len());
            assert("ScrollPageDown"@[0] != "PasteSelection"@[0]);
            assert("ScrollPageDown"@.len() != "IncreaseFontSize"@.len());
            assert("ScrollPageDown"@.len() != "DecreaseFontSize"@.len());
            assert("ScrollPageDown"@.len() != "ResetFontSize"@.len());
            assert("ScrollPageDown"@.len() != "ScrollPageUp"@.len());
            assert(action_spec("ScrollPageDown"@) == Some(Action::ScrollPageDown));
        },
        Action::ScrollToTop => {
            assert("ScrollToTop"@.len() != "Paste"@.len());
            assert("ScrollToTop"@.len() != "Copy"@.len());
            assert("ScrollToTop"@.len() != "PasteSelection"@.len());
            assert("ScrollToTop"@.len() != "IncreaseFontSize"@.len());
            assert("ScrollToTop"@.len() != "DecreaseFontSize"@.len());
            assert("ScrollToTop"@.len() != "ResetFontSize"@.len());
            assert("ScrollToTop"@.len() != "ScrollPageUp"@.len());
            assert("ScrollToTop"@.len() != "ScrollPageDown"@.len());
            assert(action_spec("ScrollToTop"@) == Some(Action::ScrollToTop));
        },
        Action::ScrollToBottom => {
            assert("ScrollToBottom"@.len() != "Paste"@.len());
            assert("ScrollToBottom"@.len() != "Copy"@.len());
            assert("ScrollToBottom"@[0] != "PasteSelection"@[0]);
            assert("ScrollToBottom"@.len() != "IncreaseFontSize"@.len());
            assert("ScrollToBottom"@.len() != "DecreaseFontSize"@.len());
            assert("ScrollToBottom"@.len() != "ResetFontSize"@.len());
            assert("ScrollToBottom"@.len() != "ScrollPageUp"@.len());
            assert("ScrollToBottom"@[6] != "ScrollPageDown"@[6]);
            assert("ScrollToBottom"@.len() != "ScrollToTop"@.len());
            assert(action_spec("ScrollToBottom"@) == Some(Action::ScrollToBottom));
        },
        Action::ClearHistory => {
            assert("ClearHistory"@.len() != "Paste"@.len());
            assert("ClearHistory"@.len() != "Copy"@.len());
            assert("ClearHistory"@.len() != "PasteSelection"@.len());
            assert("ClearHistory"@.len() != "IncreaseFontSize"@.len());
            assert("ClearHistory"@.len() != "DecreaseFontSize"@.len());
            assert("ClearHistory"@.len() != "ResetFontSize"@.len());
            assert("ClearHistory"@[0] != "ScrollPageUp"@[0]);
            assert("ClearHistory"@.len() != "ScrollPageDown"@.len());
            assert("ClearHistory"@.len() != "ScrollToTop"@.len());
            assert("ClearHistory"@.len() != "ScrollToBottom"@.len());
            assert(action_spec("ClearHistory"@) == Some(Action::ClearHistory));
        },
        Action::Hide => {
            assert("Hide"@.len() != "Paste"@.len());
            assert("Hide"@[0] != "Copy"@[0]);
            assert("Hide"@.len() != "PasteSelection"@.len());
            assert("Hide"@.len() != "IncreaseFontSize"@.len());
            assert("Hide"@.len() != "DecreaseFontSize"@.len());
            assert("Hide"@.len() != "ResetFontSize"@.len());
            assert("Hide"@.len() != "ScrollPageUp"@.len());
            assert("Hide"@.len() != "ScrollPageDown"@.len());
            assert("Hide"@.len() != "ScrollToTop"@.len());
            assert("Hide"@.len() != "ScrollToBottom"@.len());
            assert("Hide"@.len() != "ClearHistory"@.len());
            assert(action_spec("Hide"@) == Some(Action::Hide));
        },
        Action::Quit => {
            assert("Quit"@.len() != "Paste"@.len());
            assert("Quit"@[0] != "Copy"@[0]);
            assert("Quit"@.len() != "PasteSelection"@.len());
            assert("Quit"@.len() != "IncreaseFontSize"@.len());
            assert("Quit"@.len() != "DecreaseFontSize"@.len());
            assert("Quit"@.len() != "ResetFontSize"@.len());
            assert("Quit"@.len() != "ScrollPageUp"@.len());
            assert("Quit"@.len() != "ScrollPageDown"@.len());
            assert("Quit"@.len() != "ScrollToTop"@.len());
            assert("Quit"@.len() != "ScrollToBottom"@.len());
            assert("Quit"@.len() != "ClearHistory"@.len());
            assert("Quit"@[0] != "Hide"@[0]);
            assert(action_spec("Quit"@) == Some(Action::Quit));
        },
        Action::ClearLogNotice => {
            assert("ClearLogNotice"@.len() != "Paste"@.len());
            assert("ClearLogNotice"@.len() != "Copy"@.len());
            assert("ClearLogNotice"@[0] != "PasteSelection"@[0]);
            assert("ClearLogNotice"@.len() != "IncreaseFontSize"@.len());
            assert("ClearLogNotice"@.len() != "DecreaseFontSize"@.len());
            assert("ClearLogNotice"@.len() != "ResetFontSize"@.len());
            assert("ClearLogNotice"@.len() != "ScrollPageUp"@.len());
            assert("ClearLogNotice"@[0] != "ScrollPageDown"@[0]);
            assert("ClearLogNotice"@.len() != "ScrollToTop"@.len());
            assert("ClearLogNotice"@[0] != "ScrollToBottom"@[0]);
            assert("ClearLogNotice"@.len() != "ClearHistory"@.len());
            assert("ClearLogNotice"@.len() != "Hide"@.len());
            assert("ClearLogNotice"@.len() != "Quit"@.len());
            assert(action_spec("ClearLogNotice"@) == Some(Action::ClearLogNotice));
        },
        Action::SpawnNewInstance => {
            assert("SpawnNewInstance"@.len() != "Paste"@.len());
            assert("SpawnNewInstance"@.len() != "Copy"@.len());
            assert("SpawnNewInstance"@.len() != "PasteSelection"@.len());
            assert("SpawnNewInstance"@[0] != "IncreaseFontSize"@[0]);
            assert("SpawnNewInstance"@[0] != "DecreaseFontSize"@[0]);
            assert("SpawnNewInstance"@.len() != "ResetFontSize"@.len());
            assert("SpawnNewInstance"@.len() != "ScrollPageUp"@.len());
            assert("SpawnNewInstance"@.len() != "ScrollPageDown"@.len());
            assert("SpawnNewInstance"@.len() != "ScrollToTop"@.len());
            assert("SpawnNewInstance"@.len() != "ScrollToBottom"@.len());
            assert("SpawnNewInstance"@.len() != "ClearHistory"@.len());
            assert("SpawnNewInstance"@.len() != "Hide"@.len());
            assert("SpawnNewInstance"@.len() != "Quit"@.len());
            assert("SpawnNewInstance"@.len() != "ClearLogNotice"@.len());
            assert(action_spec("SpawnNewInstance"@) == Some(Action::SpawnNewInstance));
        },
        Action::Nothing => {
            assert("None"@.len() != "Paste"@.len());
            assert("None"@[0] != "Copy"@[0]);
            assert("None"@.len() != "PasteSelection"@.len());
            assert("None"@.len() != "IncreaseFontSize"@.len());
            assert("None"@.len() != "DecreaseFontSize"@.len());
            assert("None"@.len() != "ResetFontSize"@.len());
            assert("None"@.len() != "ScrollPageUp"@.len());
            assert("None"@.len() != "ScrollPageDown"@.len());
            assert("None"@.len() != "ScrollToTop"@.len());
            assert("None"@.len() != "ScrollToBottom"@.len());
            assert("None"@.len() != "ClearHistory"@.len());
            assert("None"@[0] != "Hide"@[0]);
            assert("None"@[0] != "Quit"@[0]);
            assert("None"@.len() != "ClearLogNotice"@.len());
            assert("None"@.len() != "SpawnNewInstance"@.len());
            assert(action_spec("None"@) == Some(Action::Nothing));
        },
        _ => {},
    }
}

/// An action read from the configuration.
pub struct ActionWrapper(pub Action);

impl ActionWrapper {
    pub fn into_inner(self) -> (r: Action)
        ensures
            r == self.0,
    {
        self.0
    }
}

/// Reads an action by its exact name; `Err` for any other text.
pub fn parse_action(value: &str) -> (r: Result<ActionWrapper, ()>)
    ensures
        action_spec(value@) matches Some(a) ==> (r matches Ok(w) && w.0 == a),
        action_spec(value@) is None ==> r is Err,
{
    let v = str_chars(value);
    let n = v.len();
    assert(v@.subrange(0, n as int) == v@);
    let a = if chars_eq_str(&v, 0, n, "Paste") {
        Action::Paste
    } else if chars_eq_str(&v, 0, n, "Copy") {
        Action::Copy
    } else if chars_eq_str(&v, 0, n, "PasteSelection") {
        Action::PasteSelection
    } else if chars_eq_str(&v, 0, n, "IncreaseFontSize") {
        Action::IncreaseFontSize
    } else if chars_eq_str(&v, 0, n, "DecreaseFontSize") {
        Action::DecreaseFontSize
    } else if chars_eq_str(&v, 0, n, "ResetFontSize") {
        Action::ResetFontSize
    } else if chars_eq_str(&v, 0, n, "ScrollPageUp") {
        Action::ScrollPageUp
    } else if chars_eq_str(&v, 0, n, "ScrollPageDown") {
        Action::ScrollPageDown
    } else if chars_eq_str(&v, 0, n, "ScrollToTop") {
        Action::ScrollToTop
    } else if chars_eq_str(&v, 0, n, "ScrollToBottom") {
        Action::ScrollToBottom
    } else if chars_eq_str(&v, 0, n, "ClearHistory") {
        Action::ClearHistory
    } else if chars_eq_str(&v, 0, n, "Hide") {
        Action::Hide
    } else if chars_eq_str(&v, 0, n, "Quit") {
        Action::Quit
    } else if chars_eq_str(&v, 0, n, "ClearLogNotice") {
        Action::ClearLogNotice
    } else if chars_eq_str(&v, 0, n, "SpawnNewInstance") {
        Action::SpawnNewInstance
    } else if chars_eq_str(&v, 0, n, "None") {
        Action::Nothing
    } else {
        return Err(());
    };
    Ok(ActionWrapper(a))
}

/// A mode requirement and a mode exclusion, read from a mode list.
#[derive(Debug, Clone, Copy, PartialEq, Eq, Structural)]
pub struct ModeWrapper {
    pub mode: TermMode,
    pub not_mode: TermMode,
}

/// The bits of application cursor mode.
pub const APP_CURSOR_BITS: u16 = 2;

/// The bits of application keypad mode.
pub const APP_KEYPAD_BITS: u16 = 4;

/// The bits of the alternate screen.
pub const ALT_SCREEN_BITS: u16 = 4096;

/// What one name of a mode list adds: "AppCursor", "AppKeypad" and "Alt"
/// require a mode, the same names after "~" exclude it.
pub open spec fn apply_mode(acc: ModeWrapper, name: Seq<char>) -> ModeWrapper {
    if name == "AppCursor"@ {
        ModeWrapper { mode: TermMode { bits: acc.mode.bits | APP_CURSOR_BITS }, ..acc }
    } else if name == "~AppCursor"@ {
        ModeWrapper { not_mode: TermMode { bits: acc.not_mode.bits | APP_CURSOR_BITS }, ..acc }
    } else if name == "AppKeypad"@ {
        ModeWrapper { mode: TermMode { bits: acc.mode.bits | APP_KEYPAD_BITS }, ..acc }
    } else if name == "~AppKeypad"@ {
        ModeWrapper { not_mode: TermMode { bits: acc.not_mode.bits | APP_KEYPAD_BITS }, ..acc }
    } else if name == "~Alt"@ {
        ModeWrapper { not_mode: TermMode { bits: acc.not_mode.bits | ALT_SCREEN_BITS }, ..acc }
    } else if name == "Alt"@ {
        ModeWrapper { mode: TermMode { bits: acc.mode.bits | ALT_SCREEN_BITS }, ..acc }
    } else {
        acc
    }
}

/// Each mode name requires its own mode, and the same name after "~"
/// excludes it: "AppCursor", "AppKeypad" and "Alt" (the alternate screen).
pub proof fn mode_names_select_their_mode(acc: ModeWrapper)
    ensures
        apply_mode(acc, "AppCursor"@) == (ModeWrapper { mode: TermMode { bits: acc.mode.bits | APP_CURSOR_BITS }, ..acc }),
        apply_mode(acc, "~AppCursor"@) == (ModeWrapper { not_mode: TermMode { bits: acc.not_mode.bits | APP_CURSOR_BITS }, ..acc }),
        apply_mode(acc, "AppKeypad"@) == (ModeWrapper { mode: TermMode { bits: acc.mode.bits | APP_KEYPAD_BITS }, ..acc }),
        apply_mode(acc, "~AppKeypad"@) == (ModeWrapper { not_mode: TermMode { bits: acc.not_mode.bits | APP_KEYPAD_BITS }, ..acc }),
        apply_mode(acc, "Alt"@) == (ModeWrapper { mode: TermMode { bits: acc.mode.bits | ALT_SCREEN_BITS }, ..acc }),
        apply_mode(acc, "~Alt"@) == (ModeWrapper { not_mode: TermMode { bits: acc.not_mode.bits | ALT_SCREEN_BITS }, ..acc }),
{
    reveal_strlit("AppCursor");
    reveal_strlit("~AppCursor");
    reveal_strlit("AppKeypad");
    reveal_strlit("~AppKeypad");
    reveal_strlit("~Alt");
    reveal_strlit("Alt");
    assert("~AppCursor"@.len() != "AppCursor"@.len());
    assert("AppKeypad"@[3] != "AppCursor"@[3]);
    assert("AppKeypad"@.len() != "~AppCursor"@.len());
    assert("~AppKeypad"@.len() != "AppCursor"@.len());
    assert("~AppKeypad"@[4] != "~AppCursor"@[4]);
    assert("~AppKeypad"@.len() != "AppKeypad"@.len());
    assert("~Alt"@.len() != "AppCursor"@.len());
    assert("~Alt"@.len() != "~AppCursor"@.len());
    assert("~Alt"@.len() != "AppKeypad"@.len());
    assert("~Alt"@.len() != "~AppKeypad"@.len());
    assert("Alt"@.len() != "AppCursor"@.len());
    assert("Alt"@.len() != "~AppCursor"@.len());
    assert("Alt"@.len() != "AppKeypad"@.len());
    assert("Alt"@.len() != "~AppKeypad"@.len());
    assert("Alt"@.len() != "~Alt"@.len());
}

/// The modes that the list `s` adds to `acc`.
pub open spec fn modes_spec(acc: ModeWrapper, s: Seq<char>) -> ModeWrapper
    decreases s.len(),
{
    let e = token_end(s, '|');
    let next = apply_mode(acc, trim_spec(s.subrange(0, e as int)));
    if e >= s.len() {
        next
    } else {
        modes_spec(next, s.subrange(e as int + 1, s.len() as int))
    }
}

/// Neither a required nor an excluded mode.
pub open spec fn no_modes() -> ModeWrapper {
    ModeWrapper { mode: TermMode { bits: 0 }, not_mode: TermMode { bits: 0 } }
}

/// Parses a `|`-separated list of modes, such as "~AppCursor|Alt".
pub fn parse_modes(value: &str) -> (r: ModeWrapper)
    ensures
        r == modes_spec(no_modes(), value@),
{
    let v = str_chars(value);
    let ghost s = v@;
    let mut res = ModeWrapper { mode: TermMode { bits: 0 }, not_mode: TermMode { bits: 0 } };
    let mut pos: usize = 0;
    assert(s.subrange(0, s.len() as int) == s);
    loop
        invariant
            pos <= v@.len(),
            v@ == s,
            s == value@,
            modes_spec(res, s.subrange(pos as int, s.len() as int)) == modes_spec(no_modes(), s),
        decreases v@.len() - pos,
    {
        let ghost rest = s.subrange(pos as int, s.len() as int);
        let e = find_sep(&v, pos, '|');
        let (a, b) = trim_bounds(&v, pos, e);
        proof {
            assert(rest.subrange(0, (e - pos) as int) == s.subrange(pos as int, e as int));
        }
        if chars_eq_str(&v, a, b, "AppCursor") {
            res.mode = TermMode { bits: res.mode.bits | APP_CURSOR_BITS };
        } else if chars_eq_str(&v, a, b, "~AppCursor") {
            res.not_mode = TermMode { bits: res.not_mode.bits | APP_CURSOR_BITS };
        } else if chars_eq_str(&v, a, b, "AppKeypad") {
            res.mode = TermMode { bits: res.mode.bits | APP_KEYPAD_BITS };
        } else if chars_eq_str(&v, a, b, "~AppKeypad") {
            res.not_mode = TermMode { bits: res.not_mode.bits | APP_KEYPAD_BITS };
        } else if chars_eq_str(&v, a, b, "~Alt") {
            res.not_mode = TermMode { bits: res.not_mode.bits | ALT_SCREEN_BITS };
        } else if chars_eq_str(&v, a, b, "Alt") {
            res.mode = TermMode { bits: res.mode.bits | ALT_SCREEN_BITS };
        }
        if e >= v.len() {
            return res;
        }
        proof {
            assert(rest.subrange((e - pos) + 1, rest.len() as int) == s.subrange(
                e + 1,
                s.len() as int,
            ));
        }
        pos = e + 1;
    }
}

/// The value of a decimal digit character.
pub open spec fn digit_value(c: char) -> int {
    (c as u32) - 0x30
}

/// Whether `c` is an ASCII decimal digit.
pub open spec fn is_digit(c: char) -> bool {
    '0' <= c <= '9'
}

/// The number that the decimal digits `s` write.
pub open spec fn decimal_value(s: Seq<char>) -> int
    decreases s.len(),
{
    if s.len() == 0 {
        0
    } else {
        decimal_value(s.drop_last()) * 10 + digit_value(s.last())
    }
}

/// `s` without a leading "+".
pub open spec fn sign_stripped(s: Seq<char>) -> Seq<char> {
    if s.len() > 0 && s[0] == '+' {
        s.drop_first()
    } else {
        s
    }
}

/// Whether every character of `s` is a decimal digit.
pub open spec fn all_digits(s: Seq<char>) -> bool {
    forall|i: int| 0 <= i < s.len() ==> is_digit(#[trigger] s[i])
}

/// The `u8` that std's `u8::from_str` reads from `s`: an optional "+"
/// followed by at least one decimal digit, with a value of at most 255.
pub open spec fn parse_u8_spec(s: Seq<char>) -> Option<u8> {
    let digits = sign_stripped(s);
    if digits.len() > 0 && all_digits(digits) && decimal_value(digits) <= 255 {
        Some(decimal_value(digits) as u8)
    } else {
        None
    }
}

proof fn lemma_decimal_value_nonneg(s: Seq<char>)
    requires
        forall|i: int| 0 <= i < s.len() ==> is_digit(#[trigger] s[i]),
    ensures
        decimal_value(s) >= 0,
    decreases s.len(),
{
    if s.len() > 0 {
        lemma_decimal_value_nonneg(s.drop_last());
    }
}

/// Reads a `u8` as std's `u8::from_str` does.
pub fn parse_u8(v: &Vec<char>) -> (r: Option<u8>)
    ensures
        r == parse_u8_spec(v@),
{
    let start: usize = if v.len() > 0 && v[0] == '+' {
        1
    } else {
        0
    };
    let ghost digits = v@.subrange(start as int, v@.len() as int);
    proof {
        if start == 1 {
            assert(digits == v@.drop_first());
        } else {
            assert(digits == v@);
        }
    }
    if start >= v.len() {
        return None;
    }
    let mut value: u32 = 0;
    let mut i = start;
    while i < v.len()
        invariant
            start <= i <= v@.len(),
            digits == v@.subrange(start as int, v@.len() as int),
            digits == sign_stripped(v@),
            forall|j: int| start <= j < i ==> is_digit(#[trigger] v@[j]),
            value == decimal_value(v@.subrange(start as int, i as int)),
            value <= 255,
        decreases v@.len() - i,
    {
        let c = v[i];
        if !('0' <= c && c <= '9') {
            proof {
                assert(digits[i - start] == v@[i as int]);
                assert(!is_digit(digits[i - start]));
                assert(!all_digits(digits));
            }
            return None;
        }
        let d = (c as u32) - 0x30;
        proof {
            assert(v@.subrange(start as int, i + 1).drop_last() == v@.subrange(start as int, i as int));
        }
        if value * 10 + d > 255 {
            proof {
                assert(digits.subrange(0, i + 1 - start) == v@.subrange(start as int, i + 1));
                if all_digits(digits) {
                    lemma_prefix_le(digits, i + 1 - start);
                }
            }
            return None;
        }
        value = value * 10 + d;
        i = i + 1;
    }
    proof {
        assert(v@.subrange(start as int, v@.len() as int) == digits);
        assert forall|j: int| 0 <= j < digits.len() implies is_digit(#[trigger] digits[j]) by {
            assert(digits[j] == v@[start + j]);
        }
        assert(all_digits(digits));
    }
    Some(value as u8)
}

proof fn lemma_prefix_le(s: Seq<char>, k: int)
    requires
        0 <= k <= s.len(),
        forall|i: int| 0 <= i < s.len() ==> is_digit(#[trigger] s[i]),
    ensures
        decimal_value(s) >= decimal_value(s.subrange(0, k)),
    decreases s.len(),
{
    if k < s.len() {
        let t = s.drop_last();
        assert forall|i: int| 0 <= i < t.len() implies is_digit(#[trigger] t[i]) by {
            assert(t[i] == s[i]);
        }
        lemma_prefix_le(t, k);
        assert(t.subrange(0, k) == s.subrange(0, k));
        lemma_decimal_value_nonneg(t);
        assert(decimal_value(s) == decimal_value(t) * 10 + digit_value(s.last()));
        assert(decimal_value(t) * 10 >= decimal_value(t)) by (nonlinear_arith)
            requires
                decimal_value(t) >= 0,
        ;
    } else {
        assert(s.subrange(0, k) == s);
    }
}

/// The `usize` that std's `usize::from_str` reads from `s`: an optional
/// "+" followed by at least one decimal digit, with a value that fits.
pub open spec fn parse_usize_spec(s: Seq<char>) -> Option<usize> {
    let digits = sign_stripped(s);
    if digits.len() > 0 && all_digits(digits) && decimal_value(digits) <= usize::MAX {
        Some(decimal_value(digits) as usize)
    } else {
        None
    }
}

/// Reads a `usize` as std's `usize::from_str` does.
pub fn parse_usize(v: &Vec<char>) -> (r: Option<usize>)
    ensures
        r == parse_usize_spec(v@),
{
    let start: usize = if v.len() > 0 && v[0] == '+' {
        1
    } else {
        0
    };
    let ghost digits = v@.subrange(start as int, v@.len() as int);
    proof {
        if start == 1 {
            assert(digits == v@.drop_first());
        } else {
            assert(digits == v@);
        }
    }
    if start >= v.len() {
        return None;
    }
    let mut value: usize = 0;
    let mut i = start;
    while i < v.len()
        invariant
            start <= i <= v@.len(),
            digits == v@.subrange(start as int, v@.len() as int),
            digits == sign_stripped(v@),
            forall|j: int| start <= j < i ==> is_digit(#[trigger] v@[j]),
            value == decimal_value(v@.subrange(start as int, i as int)),
        decreases v@.len() - i,
    {
        let c = v[i];
        if !('0' <= c && c <= '9') {
            proof {
                assert(digits[i - start] == v@[i as int]);
                assert(!is_digit(digits[i - start]));
                assert(!all_digits(digits));
            }
            return None;
        }
        let d = ((c as u32) - 0x30) as usize;
        proof {
            assert(v@.subrange(start as int, i + 1).drop_last() == v@.subrange(start as int, i as int));
        }
        if value > (usize::MAX - d) / 10 {
            proof {
                assert(value * 10 + d > usize::MAX) by (nonlinear_arith)
                    requires
                        value > (usize::MAX - d) / 10,
                        d <= 9,
                ;
                assert(digits.subrange(0, i + 1 - start) == v@.subrange(start as int, i + 1));
                if all_digits(digits) {
                    lemma_prefix_le(digits, i + 1 - start);
                }
            }
            return None;
        }
        proof {
            assert(value * 10 + d <= usize::MAX) by (nonlinear_arith)
                requires
                    value <= (usize::MAX - d) / 10,
                    d <= 9,
            ;
        }
        value = value * 10 + d;
        i = i + 1;
    }
    proof {
        assert(v@.subrange(start as int, v@.len() as int) == digits);
        assert forall|j: int| 0 <= j < digits.len() implies is_digit(#[trigger] digits[j]) by {
            assert(digits[j] == v@[start + j]);
        }
        assert(all_digits(digits));
    }
    Some(value)
}

/// The mouse button that a configured name or number stands for.
pub open spec fn mouse_button_spec(name: Seq<char>) -> Option<MouseButton> {
    if name == "Left"@ {
        Some(MouseButton::Left)
    } else if name == "Right"@ {
        Some(MouseButton::Right)
    } else if name == "Middle"@ {
        Some(MouseButton::Middle)
    } else {
        match parse_u8_spec(name) {
            Some(index) => Some(MouseButton::Other(index)),
            None => None,
        }
    }
}

/// The button names read as the buttons they name.
pub proof fn mouse_button_names_read_as_their_button()
    ensures
        mouse_button_spec("Left"@) == Some(MouseButton::Left),
        mouse_button_spec("Right"@) == Some(MouseButton::Right),
        mouse_button_spec("Middle"@) == Some(MouseButton::Middle),
{
    reveal_strlit("Left");
    reveal_strlit("Right");
    reveal_strlit("Middle");
    assert("Right"@.len() != "Left"@.len());
    assert("Middle"@.len() != "Left"@.len());
    assert("Middle"@.len() != "Right"@.len());
}

/// Reads a mouse button: "Left", "Right", "Middle", or the number of
/// another button.
pub fn parse_mouse_button(value: &str) -> (r: Option<MouseButton>)
    ensures
        r == mouse_button_spec(value@),
{
    let v = str_chars(value);
    let n = v.len();
    assert(v@.subrange(0, n as int) == v@);
    if chars_eq_str(&v, 0, n, "Left") {
        Some(MouseButton::Left)
    } else if chars_eq_str(&v, 0, n, "Right") {
        Some(MouseButton::Right)
    } else if chars_eq_str(&v, 0, n, "Middle") {
        Some(MouseButton::Middle)
    } else {
        match parse_u8(&v) {
            Some(index) => Some(MouseButton::Other(index)),
            None => None,
        }
    }
}

/// Whether `c` is `w` or, for an ASCII letter `w`, its upper case.
pub open spec fn ascii_ci_char(c: char, w: char) -> bool {
    c == w || ('a' <= w <= 'z' && (c as u32) == (w as u32) - 32)
}

/// Whether the text `s` is the lower-case word `w` in any letter case.
///
/// For the words that decorations are named by, this is the same as
/// comparing the Unicode lower case of `s` with `w`: the only characters
/// outside ASCII whose lower case is an ASCII letter map to `k` and `å`, and
/// no such word holds either.
pub open spec fn ascii_ci_eq(s: Seq<char>, w: Seq<char>) -> bool {
    s.len() == w.len() && forall|i: int| 0 <= i < s.len() ==> ascii_ci_char(#[trigger] s[i], w[i])
}

fn chars_ci_eq_str(v: &Vec<char>, lit: &str) -> (r: bool)
    ensures
        r == ascii_ci_eq(v@, lit@),
{
    let l = str_chars(lit);
    if v.len() != l.len() {
        return false;
    }
    let mut i: usize = 0;
    while i < l.len()
        invariant
            i <= l@.len(),
            l@ == lit@,
            v@.len() == l@.len(),
            forall|j: int| 0 <= j < i ==> ascii_ci_char(#[trigger] v@[j], l@[j]),
        decreases l@.len() - i,
    {
        let c = v[i];
        let w = l[i];
        let ok = c == w || ('a' <= w && w <= 'z' && (c as u32) == (w as u32) - 32);
        if !ok {
            assert(!ascii_ci_char(v@[i as int], lit@[i as int]));
            return false;
        }
        i = i + 1;
    }
    true
}

/// The window decorations that a configured value asks for: "none" and the
/// deprecated "false" remove them; everything else, including values that
/// only some platforms know, keeps the full decorations.
pub open spec fn decorations_spec(value: Seq<char>) -> Decorations {
    if ascii_ci_eq(value, "none"@) || ascii_ci_eq(value, "false"@) {
        Decorations::NoDecorations
    } else {
        Decorations::Full
    }
}

/// Reads the window decorations, in any letter case.
pub fn parse_decorations(value: &str) -> (r: Decorations)
    ensures
        r == decorations_spec(value@),
{
    let v = str_chars(value);
    if chars_ci_eq_str(&v, "none") || chars_ci_eq_str(&v, "false") {
        Decorations::NoDecorations
    } else {
        Decorations::Full
    }
}

/// The value of a hexadecimal digit, as `char::to_digit(16)` gives it.
pub open spec fn hex_digit_spec(c: char) -> Option<u8> {
    if '0' <= c <= '9' {
        Some(((c as u32) - 0x30) as u8)
    } else if 'a' <= c <= 'f' {
        Some(((c as u32) - 0x61 + 10) as u8)
    } else if 'A' <= c <= 'F' {
        Some(((c as u32) - 0x41 + 10) as u8)
    } else {
        None
    }
}

fn hex_digit(c: char) -> (r: Option<u8>)
    ensures
        r == hex_digit_spec(c),
{
    if '0' <= c && c <= '9' {
        Some(((c as u32) - 0x30) as u8)
    } else if 'a' <= c && c <= 'f' {
        Some(((c as u32) - 0x61 + 10) as u8)
    } else if 'A' <= c && c <= 'F' {
        Some(((c as u32) - 0x41 + 10) as u8)
    } else {
        None
    }
}

/// The color that a hex string names: "0x" or "#", then two hex digits for
/// each of red, green and blue; whatever follows them is not read.
pub open spec fn rgb_spec(s: Seq<char>) -> Option<Rgb> {
    let start: int = if s.len() >= 2 && s[0] == '0' && s[1] == 'x' {
        2
    } else if s.len() >= 1 && s[0] == '#' {
        1
    } else {
        -1
    };
    if start < 0 || s.len() < start + 6 {
        None
    } else if forall|i: int| start <= i < start + 6 ==> (#[trigger] hex_digit_spec(s[i])) is Some {
        Some(
            Rgb {
                r: (hex_digit_spec(s[start]).unwrap() * 16 + hex_digit_spec(s[start + 1]).unwrap()) as u8,
                g: (hex_digit_spec(s[start + 2]).unwrap() * 16 + hex_digit_spec(s[start + 3]).unwrap()) as u8,
                b: (hex_digit_spec(s[start + 4]).unwrap() * 16 + hex_digit_spec(s[start + 5]).unwrap()) as u8,
            },
        )
    } else {
        None
    }
}

/// The lowercase hex digit of `d` (below 16).
pub open spec fn hex_char_spec(d: nat) -> char {
    if d < 10 {
        (0x30 + d) as char
    } else {
        (0x61 + d - 10) as char
    }
}

/// The color written as "#rrggbb" in lowercase hex digits.
pub open spec fn rgb_hex_text(c: Rgb) -> Seq<char> {
    seq![
        '#',
        hex_char_spec((c.r / 16) as nat),
        hex_char_spec((c.r % 16) as nat),
        hex_char_spec((c.g / 16) as nat),
        hex_char_spec((c.g % 16) as nat),
        hex_char_spec((c.b / 16) as nat),
        hex_char_spec((c.b % 16) as nat),
    ]
}

proof fn lemma_hex_char(d: nat)
    requires
        d < 16,
    ensures
        hex_digit_spec(hex_char_spec(d)) == Some(d as u8),
{
}

/// Reading a color back from its "#rrggbb" text gives the color.
pub proof fn rgb_hex_round_trip(c: Rgb)
    ensures
        rgb_spec(rgb_hex_text(c)) == Some(c),
{
    let t = rgb_hex_text(c);
    lemma_hex_char((c.r / 16) as nat);
    lemma_hex_char((c.r % 16) as nat);
    lemma_hex_char((c.g / 16) as nat);
    lemma_hex_char((c.g % 16) as nat);
    lemma_hex_char((c.b / 16) as nat);
    lemma_hex_char((c.b % 16) as nat);
    assert(forall|i: int| 1 <= i < 7 ==> (#[trigger] hex_digit_spec(t[i])) is Some);
}

fn hex_byte(v: &Vec<char>, at: usize) -> (r: Option<u8>)
    requires
        at + 2 <= v.len(),
    ensures
        (hex_digit_spec(v@[at as int]) is Some && hex_digit_spec(v@[at + 1]) is Some) ==> r == Some(
            (hex_digit_spec(v@[at as int]).unwrap() * 16 + hex_digit_spec(v@[at + 1]).unwrap()) as u8,
        ),
        !(hex_digit_spec(v@[at as int]) is Some && hex_digit_spec(v@[at + 1]) is Some) ==> r is None,
{
    match (hex_digit(v[at]), hex_digit(v[at + 1])) {
        (Some(hi), Some(lo)) => Some(hi * 16 + lo),
        _ => None,
    }
}

/// Reads a color such as "0xff00ff" or "#ff00ff".
pub fn parse_rgb(value: &str) -> (r: Option<Rgb>)
    ensures
        r == rgb_spec(value@),
{
    let v = str_chars(value);
    let start: usize = if v.len() >= 2 && v[0] == '0' && v[1] == 'x' {
        2
    } else if v.len() >= 1 && v[0] == '#' {
        1
    } else {
        return None;
    };
    if v.len() < start + 6 {
        return None;
    }
    let r = hex_byte(&v, start);
    let g = hex_byte(&v, start + 2);
    let b = hex_byte(&v, start + 4);
    match (r, g, b) {
        (Some(r), Some(g), Some(b)) => {
            assert forall|i: int| start <= i < start + 6 implies (#[trigger] hex_digit_spec(
                v@[i],
            )) is Some by {
                if i == start || i == start + 1 {
                } else if i == start + 2 || i == start + 3 {
                } else {
                }
            }
            Some(Rgb { r, g, b })
        },
        _ => {
            assert(!(forall|i: int|
                start <= i < start + 6 ==> (#[trigger] hex_digit_spec(v@[i])) is Some)) by {
                if !(hex_digit_spec(v@[start as int]) is Some) {
                } else if !(hex_digit_spec(v@[start + 1]) is Some) {
                } else if !(hex_digit_spec(v@[start + 2]) is Some) {
                } else if !(hex_digit_spec(v@[start + 3]) is Some) {
                } else if !(hex_digit_spec(v@[start + 4]) is Some) {
                } else {
                    assert(!(hex_digit_spec(v@[start + 5]) is Some));
                }
            }
            None
        },
    }
}

/// A binding as read from the configuration, triggered by a key or a mouse
/// button, before it is sorted into a key or a mouse binding.
pub struct RawBinding {
    pub key: Option<Key>,
    pub mouse: Option<MouseButton>,
    pub mods: ModifiersState,
    pub mode: TermMode,
    pub notmode: TermMode,
    pub action: Action,
}

impl RawBinding {
    /// The mouse binding, if the binding names a mouse button.
    pub fn into_mouse_binding(self) -> (r: Result<MouseBinding, RawBinding>)
        ensures
            self.mouse matches Some(m) ==> (r matches Ok(b) && b.trigger == m && b.mods == self.mods
                && b.action == self.action && b.mode == self.mode && b.notmode == self.notmode),
            self.mouse is None ==> (r matches Err(raw) && raw == self),
    {
        match self.mouse {
            Some(mouse) => Ok(
                Binding {
                    trigger: mouse,
                    mods: self.mods,
                    action: self.action,
                    mode: self.mode,
                    notmode: self.notmode,
                },
            ),
            None => Err(self),
        }
    }

    /// The key binding, if the binding names a key.
    pub fn into_key_binding(self) -> (r: Result<KeyBinding, RawBinding>)
        ensures
            self.key matches Some(k) ==> (r matches Ok(b) && b.trigger == k && b.mods == self.mods
                && b.action == self.action && b.mode == self.mode && b.notmode == self.notmode),
            self.key is None ==> (r matches Err(raw) && raw == self),
    {
        match self.key {
            Some(key) => Ok(
                Binding {
                    trigger: key,
                    mods: self.mods,
                    action: self.action,
                    mode: self.mode,
                    notmode: self.notmode,
                },
            ),
            None => Err(self),
        }
    }
}

/// Why the fields of a binding make no binding.
#[derive(Debug, Clone, Copy, PartialEq, Eq, Structural)]
pub enum BindingError {
    /// None of chars, action or command is given.
    NoAction,
    /// More than one of chars, action and command is given.
    ManyActions,
    /// Neither a key nor a mouse button is given.
    NoTrigger,
    /// A key's scancode does not fit in 32 bits.
    ScancodeTooBig,
    /// A field is given when it may not be given again.
    DuplicateField(BindingField),
}

/// The key that a scancode read from the configuration names.
pub fn key_from_scancode(scancode: u64) -> (r: Result<Key, BindingError>)
    ensures
        scancode > u32::MAX ==> r == Err::<Key, BindingError>(BindingError::ScancodeTooBig),
        scancode <= u32::MAX ==> r == Ok::<Key, BindingError>(Key::Scancode(scancode as u32)),
{
    if scancode > 0xffff_ffff {
        Err(BindingError::ScancodeTooBig)
    } else {
        Ok(Key::Scancode(scancode as u32))
    }
}

/// The fields of a binding as read so far; `None` for a field not given.
pub struct BindingFields {
    pub key: Option<Key>,
    pub mouse: Option<MouseButton>,
    pub mods: Option<ModifiersState>,
    pub modes: Option<ModeWrapper>,
    pub action: Option<Action>,
    pub chars: Option<String>,
    pub command: Option<CommandWrapper>,
}

/// What the fields `f` make: exactly one of the action, the escape
/// sequence (chars) and the command says what the binding does, at least
/// one of the key and the mouse button what triggers it; modes and
/// modifiers default to none.
pub open spec fn fields_binding(f: BindingFields, r: Result<RawBinding, BindingError>) -> bool {
    &&& f.action is None && f.chars is None && f.command is None ==> r == Err::<RawBinding, BindingError>(
        BindingError::NoAction,
    )
    &&& (f.action is Some && (f.chars is Some || f.command is Some)) || (f.chars is Some && f.command is Some)
        ==> r == Err::<RawBinding, BindingError>(BindingError::ManyActions)
    &&& (f.action is Some) as int + (f.chars is Some) as int + (f.command is Some) as int == 1
        && f.key is None && f.mouse is None ==> r == Err::<RawBinding, BindingError>(BindingError::NoTrigger)
    &&& r matches Ok(b) ==> {
        &&& b.key == f.key
        &&& b.mouse == f.mouse
        &&& b.mods == (match f.mods {
            Some(m) => m,
            None => ModifiersState { shift: false, ctrl: false, alt: false, logo: false },
        })
        &&& b.mode == (match f.modes {
            Some(m) => m.mode,
            None => TermMode { bits: 0 },
        })
        &&& b.notmode == (match f.modes {
            Some(m) => m.not_mode,
            None => TermMode { bits: 0 },
        })
        &&& f.action matches Some(a) ==> b.action == a
        &&& f.chars matches Some(c) ==> (b.action matches Action::Esc(e) && e == c)
        &&& f.command matches Some(CommandWrapper::Just(p)) ==> (b.action matches Action::Command(q, args)
            && q == p && args@.len() == 0)
        &&& f.command matches Some(CommandWrapper::WithArgs { program, args }) ==> (
        b.action matches Action::Command(q, a) && q == program && a == args)
    }
    &&& r is Ok <==> ((f.action is Some) as int + (f.chars is Some) as int + (f.command is Some) as int
        == 1 && (f.key is Some || f.mouse is Some))
}

/// Makes a binding of its fields: exactly one of `action`, `chars` (an
/// escape sequence) and `command` says what it does, at least one of `key`
/// and `mouse` what triggers it; modes and modifiers default to none.
pub fn raw_binding_from_fields(
    key: Option<Key>,
    mouse: Option<MouseButton>,
    mods: Option<ModifiersState>,
    modes: Option<ModeWrapper>,
    action: Option<Action>,
    chars: Option<String>,
    command: Option<CommandWrapper>,
) -> (r: Result<RawBinding, BindingError>)
    ensures
        fields_binding((BindingFields { key, mouse, mods, modes, action, chars, command }), r),
{
    let action = match (action, chars, command) {
        (Some(action), None, None) => action,
        (None, Some(chars), None) => Action::Esc(chars),
        (None, None, Some(cmd)) => match cmd {
            CommandWrapper::Just(program) => Action::Command(program, Vec::new()),
            CommandWrapper::WithArgs { program, args } => Action::Command(program, args),
        },
        (None, None, None) => {
            return Err(BindingError::NoAction);
        },
        _ => {
            return Err(BindingError::ManyActions);
        },
    };
    let (mode, notmode) = match modes {
        Some(m) => (m.mode, m.not_mode),
        None => (TermMode { bits: 0 }, TermMode { bits: 0 }),
    };
    let mods = match mods {
        Some(m) => m,
        None => ModifiersState { shift: false, ctrl: false, alt: false, logo: false },
    };
    if mouse.is_none() && key.is_none() {
        return Err(BindingError::NoTrigger);
    }
    Ok(RawBinding { key, mouse, mods, mode, notmode, action })
}

/// The fields a binding may have.
#[derive(Debug, Clone, Copy, PartialEq, Eq, Structural)]
pub enum BindingField {
    Key,
    Mods,
    Mode,
    Action,
    Chars,
    Mouse,
    Command,
}

/// The binding field a name stands for.
pub open spec fn binding_field_spec(name: Seq<char>) -> Option<BindingField> {
    if name == "key"@ {
        Some(BindingField::Key)
    } else if name == "mods"@ {
        Some(BindingField::Mods)
    } else if name == "mode"@ {
        Some(BindingField::Mode)
    } else if name == "action"@ {
        Some(BindingField::Action)
    } else if name == "chars"@ {
        Some(BindingField::Chars)
    } else if name == "mouse"@ {
        Some(BindingField::Mouse)
    } else if name == "command"@ {
        Some(BindingField::Command)
    } else {
        None
    }
}

/// Reads the name of a binding field; `None` for an unknown field.
pub fn parse_binding_field(value: &str) -> (r: Option<BindingField>)
    ensures
        r == binding_field_spec(value@),
{
    let v = str_chars(value);
    let n = v.len();
    assert(v@.subrange(0, n as int) == v@);
    if chars_eq_str(&v, 0, n, "key") {
        Some(BindingField::Key)
    } else if chars_eq_str(&v, 0, n, "mods") {
        Some(BindingField::Mods)
    } else if chars_eq_str(&v, 0, n, "mode") {
        Some(BindingField::Mode)
    } else if chars_eq_str(&v, 0, n, "action") {
        Some(BindingField::Action)
    } else if chars_eq_str(&v, 0, n, "chars") {
        Some(BindingField::Chars)
    } else if chars_eq_str(&v, 0, n, "mouse") {
        Some(BindingField::Mouse)
    } else if chars_eq_str(&v, 0, n, "command") {
        Some(BindingField::Command)
    } else {
        None
    }
}

/// One field of a binding with its value, in the order the configuration
/// gives them; a key is given by name or by scancode.
pub enum BindingEntry {
    Key(Key),
    Scancode(u64),
    Mods(ModifiersState),
    Mode(ModeWrapper),
    Action(Action),
    Chars(String),
    Mouse(MouseButton),
    Command(CommandWrapper),
}

/// No field given yet.
pub open spec fn no_binding_fields() -> BindingFields {
    BindingFields {
        key: None,
        mouse: None,
        mods: None,
        modes: None,
        action: None,
        chars: None,
        command: None,
    }
}

/// The fields after the entry `e` is read: a field that is already given
/// is refused, as is a scancode that does not fit in 32 bits. A mouse
/// button is refused once an escape sequence (chars) is given, and a
/// second mouse button replaces the first.
pub open spec fn binding_entry_step(f: BindingFields, e: BindingEntry) -> Result<BindingFields, BindingError> {
    match e {
        BindingEntry::Key(k) => if f.key is Some {
            Err(BindingError::DuplicateField(BindingField::Key))
        } else {
            Ok(BindingFields { key: Some(k), ..f })
        },
        BindingEntry::Scancode(code) => if f.key is Some {
            Err(BindingError::DuplicateField(BindingField::Key))
        } else if code > u32::MAX {
            Err(BindingError::ScancodeTooBig)
        } else {
            Ok(BindingFields { key: Some(Key::Scancode(code as u32)), ..f })
        },
        BindingEntry::Mods(m) => if f.mods is Some {
            Err(BindingError::DuplicateField(BindingField::Mods))
        } else {
            Ok(BindingFields { mods: Some(m), ..f })
        },
        BindingEntry::Mode(m) => if f.modes is Some {
            Err(BindingError::DuplicateField(BindingField::Mode))
        } else {
            Ok(BindingFields { modes: Some(m), ..f })
        },
        BindingEntry::Action(a) => if f.action is Some {
            Err(BindingError::DuplicateField(BindingField::Action))
        } else {
            Ok(BindingFields { action: Some(a), ..f })
        },
        BindingEntry::Chars(c) => if f.chars is Some {
            Err(BindingError::DuplicateField(BindingField::Chars))
        } else {
            Ok(BindingFields { chars: Some(c), ..f })
        },
        BindingEntry::Mouse(m) => if f.chars is Some {
            Err(BindingError::DuplicateField(BindingField::Mouse))
        } else {
            Ok(BindingFields { mouse: Some(m), ..f })
        },
        BindingEntry::Command(c) => if f.command is Some {
            Err(BindingError::DuplicateField(BindingField::Command))
        } else {
            Ok(BindingFields { command: Some(c), ..f })
        },
    }
}

/// The fields that the entries give, read in order; the first refused
/// entry gives the error.
pub open spec fn binding_entries_spec(entries: Seq<BindingEntry>) -> Result<BindingFields, BindingError>
    decreases entries.len(),
{
    if entries.len() == 0 {
        Ok(no_binding_fields())
    } else {
        match binding_entries_spec(entries.drop_last()) {
            Ok(f) => binding_entry_step(f, entries.last()),
            Err(e) => Err(e),
        }
    }
}

proof fn lemma_entries_error_stays(s: Seq<BindingEntry>, k: int, e: BindingError)
    requires
        0 <= k <= s.len(),
        binding_entries_spec(s.take(k)) == Err::<BindingFields, BindingError>(e),
    ensures
        binding_entries_spec(s) == Err::<BindingFields, BindingError>(e),
    decreases s.len() - k,
{
    if k < s.len() {
        assert(s.take(k + 1).drop_last() == s.take(k));
        lemma_entries_error_stays(s, k + 1, e);
    } else {
        assert(s.take(k) == s);
    }
}

fn binding_entry_apply(f: BindingFields, e: BindingEntry) -> (r: Result<BindingFields, BindingError>)
    ensures
        r == binding_entry_step(f, e),
{
    let mut f = f;
    match e {
        BindingEntry::Key(k) => {
            if f.key.is_some() {
                return Err(BindingError::DuplicateField(BindingField::Key));
            }
            f.key = Some(k);
        },
        BindingEntry::Scancode(code) => {
            if f.key.is_some() {
                return Err(BindingError::DuplicateField(BindingField::Key));
            }
            match key_from_scancode(code) {
                Ok(k) => {
                    f.key = Some(k);
                },
                Err(err) => {
                    return Err(err);
                },
            }
        },
        BindingEntry::Mods(m) => {
            if f.mods.is_some() {
                return Err(BindingError::DuplicateField(BindingField::Mods));
            }
            f.mods = Some(m);
        },
        BindingEntry::Mode(m) => {
            if f.modes.is_some() {
                return Err(BindingError::DuplicateField(BindingField::Mode));
            }
            f.modes = Some(m);
        },
        BindingEntry::Action(a) => {
            if f.action.is_some() {
                return Err(BindingError::DuplicateField(BindingField::Action));
            }
            f.action = Some(a);
        },
        BindingEntry::Chars(c) => {
            if f.chars.is_some() {
                return Err(BindingError::DuplicateField(BindingField::Chars));
            }
            f.chars = Some(c);
        },
        BindingEntry::Mouse(m) => {
            if f.chars.is_some() {
                return Err(BindingError::DuplicateField(BindingField::Mouse));
            }
            f.mouse = Some(m);
        },
        BindingEntry::Command(c) => {
            if f.command.is_some() {
                return Err(BindingError::DuplicateField(BindingField::Command));
            }
            f.command = Some(c);
        },
    }
    Ok(f)
}

/// Reads the fields of a binding in the order they are given, refusing a
/// field given twice and a scancode that does not fit in 32 bits.
pub fn binding_fields_from_entries(entries: Vec<BindingEntry>) -> (r: Result<BindingFields, BindingError>)
    ensures
        r == binding_entries_spec(entries@),
{
    let ghost all = entries@;
    let mut rest = entries;
    let mut f = BindingFields {
        key: None,
        mouse: None,
        mods: None,
        modes: None,
        action: None,
        chars: None,
        command: None,
    };
    let ghost mut k: int = 0;
    proof {
        assert(all.take(0) =~= Seq::<BindingEntry>::empty());
    }
    while rest.len() > 0
        invariant
            all == entries@,
            0 <= k <= all.len(),
            rest@ == all.skip(k),
            binding_entries_spec(all.take(k)) == Ok::<BindingFields, BindingError>(f),
        decreases rest.len(),
    {
        let e = rest.remove(0);
        let ghost f0 = f;
        proof {
            assert(e == all[k]);
            assert(all.take(k + 1).drop_last() == all.take(k));
            assert(all.take(k + 1).last() == all[k]);
            assert(binding_entries_spec(all.take(k + 1)) == binding_entry_step(f0, e));
        }
        match binding_entry_apply(f, e) {
            Ok(nf) => {
                f = nf;
            },
            Err(err) => {
                proof {
                    lemma_entries_error_stays(all, k + 1, err);
                }
                return Err(err);
            },
        }
        proof {
            k = k + 1;
            assert(rest@ =~= all.skip(k));
        }
    }
    proof {
        assert(all.take(k) =~= all);
    }
    Ok(f)
}

/// Makes a binding of its entries: the entries are read in order, the
/// first refused entry gives the error, and the fields read make the
/// binding as `raw_binding_from_fields` does.
pub fn raw_binding_from_entries(entries: Vec<BindingEntry>) -> (r: Result<RawBinding, BindingError>)
    ensures
        binding_entries_spec(entries@) matches Err(e) ==> r == Err::<RawBinding, BindingError>(e),
        binding_entries_spec(entries@) matches Ok(f) ==> fields_binding(f, r),
{
    match binding_fields_from_entries(entries) {
        Ok(f) => raw_binding_from_fields(f.key, f.mouse, f.mods, f.modes, f.action, f.chars, f.command),
        Err(e) => Err(e),
    }
}

} // verus!
