//! Messages shown in the message bar, and how their text is broken into
//! lines that fit the terminal.
use vstd::prelude::*;
use vstd::utf8::{encode_scalar, encode_utf8};

use crate::config::parse::{
    is_whitespace, is_whitespace_spec, leading_ws, lemma_trim_infix, str_chars, trim_bounds, trim_spec,
};
use crate::util::string_from_chars;
use crate::Rgb;
use crossbeam_channel::{Receiver, Sender};

verus! {

/// Lines that a message leaves free for the terminal.
pub const MIN_FREE_LINES: usize = 3;

/// Number of bytes in the UTF-8 encoding of `c`.
pub open spec fn char_width(c: char) -> nat {
    encode_scalar(c as u32).len()
}

/// Number of bytes in the UTF-8 encoding of `s`.
pub open spec fn byte_len(s: Seq<char>) -> nat {
    encode_utf8(s).len()
}

/// The text of the close button, " [X]", which is 4 bytes long.
pub open spec fn close_button_text() -> Seq<char> {
    seq![' ', '[', 'X', ']']
}

/// The line that replaces the last one of a message that is cut short,
/// "[MESSAGE TRUNCATED]", which is 19 bytes long.
pub open spec fn truncated_message_text() -> Seq<char> {
    seq!['[', 'M', 'E', 'S', 'S', 'A', 'G', 'E', ' ', 'T', 'R', 'U', 'N', 'C', 'A', 'T', 'E', 'D', ']']
}

/// `n` spaces.
pub open spec fn spaces(n: nat) -> Seq<char> {
    Seq::new(n, |i: int| ' ')
}

/// `s` right-padded with spaces to `cols` bytes.
pub open spec fn pad_spec(s: Seq<char>, cols: nat) -> Seq<char> {
    if byte_len(s) < cols {
        s + spaces((cols - byte_len(s)) as nat)
    } else {
        s
    }
}

/// Index of the last whitespace character of `s`, or -1 when there is none.
pub open spec fn last_ws(s: Seq<char>) -> int
    decreases s.len(),
{
    if s.len() == 0 {
        -1
    } else if is_whitespace_spec(s.last()) {
        s.len() - 1
    } else {
        last_ws(s.drop_last())
    }
}

/// Whether the line being filled is complete before `c` is placed: at a
/// newline, at the width of the terminal, or, on the first line, where
/// the close button begins.
pub open spec fn breaks_before(first: bool, line: Seq<char>, c: char, cols: nat) -> bool {
    ||| c == '\n'
    ||| byte_len(line) == cols
    ||| (first && cols >= 4 && byte_len(line) == cols - 4)
}

/// Places one character of a message: the finished lines and the line
/// being filled, after `c`. A line that breaks before a character other
/// than a newline breaks after its last whitespace, which is dropped; `None`
/// where that whitespace is longer than one byte, as the byte split there
/// would not fall on a character boundary.
pub open spec fn wrap_step(lines: Seq<Seq<char>>, line: Seq<char>, c: char, cols: nat) -> Option<
    (Seq<Seq<char>>, Seq<char>),
> {
    let broken: Option<(Seq<Seq<char>>, Seq<char>)> = if breaks_before(
        lines.len() == 0,
        line,
        c,
        cols,
    ) {
        let k = last_ws(line);
        if c != '\n' && k >= 0 {
            if char_width(line[k]) == 1 {
                Some((lines.push(pad_spec(line.take(k), cols)), line.skip(k + 1)))
            } else {
                None
            }
        } else {
            Some((lines.push(pad_spec(line, cols)), Seq::empty()))
        }
    } else {
        Some((lines, line))
    };
    match broken {
        Some((l, ln)) => Some((l, if c != '\n' { ln.push(c) } else { ln })),
        None => None,
    }
}

/// The finished lines and the line being filled after placing every
/// character of `s`.
pub open spec fn wrap_spec(s: Seq<char>, cols: nat) -> Option<(Seq<Seq<char>>, Seq<char>)>
    decreases s.len(),
{
    if s.len() == 0 {
        Some((Seq::empty(), Seq::empty()))
    } else {
        match wrap_spec(s.drop_last(), cols) {
            Some((lines, line)) => wrap_step(lines, line, s.last(), cols),
            None => None,
        }
    }
}

/// `s` cut to its first `n` bytes, as `String::truncate` does: unchanged
/// when it is no longer, `None` where byte `n` is inside a character.
pub open spec fn truncate_bytes_spec(s: Seq<char>, n: nat) -> Option<Seq<char>> {
    if n >= byte_len(s) {
        Some(s)
    } else if exists|j: int| 0 <= j <= s.len() && byte_len(#[trigger] s.take(j)) == n {
        Some(s.take(choose|j: int| 0 <= j <= s.len() && byte_len(#[trigger] s.take(j)) == n))
    } else {
        None
    }
}

/// At most `max` lines of `lines`; when some are cut and the marker fits,
/// the last line kept says that the message was truncated.
pub open spec fn limit_lines(lines: Seq<Seq<char>>, max: nat, cols: nat) -> Seq<Seq<char>> {
    if lines.len() > max {
        let kept = lines.take(max as int);
        if 19 <= cols && kept.len() > 0 {
            kept.update(kept.len() - 1, pad_spec(truncated_message_text(), cols))
        } else {
            kept
        }
    } else {
        lines
    }
}

/// The lines that show the message `text` in `cols` columns of a terminal
/// of `num_lines` lines: the trimmed text broken into lines padded to the
/// width, at most all but `MIN_FREE_LINES` lines of the terminal, and the
/// close button at the end of the first line where it fits. `None` on the
/// inputs where a byte split would fall inside a character.
pub open spec fn message_lines_spec(text: Seq<char>, cols: nat, num_lines: nat) -> Option<
    Seq<Seq<char>>,
> {
    match wrap_spec(trim_spec(text), cols) {
        Some((lines, line)) => {
            let all = lines.push(pad_spec(line, cols));
            let max: nat = if num_lines >= 3 {
                (num_lines - 3) as nat
            } else {
                0
            };
            let limited = limit_lines(all, max, cols);
            if 4 <= cols && limited.len() > 0 {
                match truncate_bytes_spec(limited[0], (cols - 4) as nat) {
                    Some(first) => Some(limited.update(0, first + close_button_text())),
                    None => None,
                }
            } else {
                Some(limited)
            }
        },
        None => None,
    }
}

/// A message leaves `MIN_FREE_LINES` lines of the terminal free: it takes
/// at most all the others, and none when the terminal has no more.
pub proof fn message_leaves_free_lines(text: Seq<char>, cols: nat, num_lines: nat)
    ensures
        message_lines_spec(text, cols, num_lines) matches Some(ls) ==> ls.len() <= if num_lines
            >= 3 {
            num_lines - 3
        } else {
            0
        },
{
}

proof fn lemma_encode_concat(a: Seq<char>, b: Seq<char>)
    ensures
        encode_utf8(a + b) == encode_utf8(a) + encode_utf8(b),
    decreases a.len(),
{
    if a.len() == 0 {
        assert(a + b == b);
    } else {
        lemma_encode_concat(a.drop_first(), b);
        assert((a + b).drop_first() == a.drop_first() + b);
        assert((a + b)[0] == a[0]);
    }
}

proof fn lemma_byte_len_push(s: Seq<char>, c: char)
    ensures
        byte_len(s.push(c)) == byte_len(s) + char_width(c),
        1 <= char_width(c) <= 4,
{
    lemma_encode_concat(s, seq![c]);
    assert(s.push(c) == s + seq![c]);
    assert(seq![c].drop_first() == Seq::<char>::empty());
    assert(encode_utf8(seq![c]) == encode_scalar(c as u32) + encode_utf8(Seq::<char>::empty()));
    assert(encode_utf8(seq![c]) == encode_scalar(c as u32));
}

proof fn lemma_byte_len_concat(a: Seq<char>, b: Seq<char>)
    ensures
        byte_len(a + b) == byte_len(a) + byte_len(b),
{
    lemma_encode_concat(a, b);
}

proof fn lemma_byte_len_take_mono(s: Seq<char>, a: int, b: int)
    requires
        0 <= a < b <= s.len(),
    ensures
        byte_len(s.take(a)) < byte_len(s.take(b)),
    decreases b - a,
{
    assert(s.take(b) == s.take(b - 1).push(s[b - 1]));
    lemma_byte_len_push(s.take(b - 1), s[b - 1]);
    if a < b - 1 {
        lemma_byte_len_take_mono(s, a, b - 1);
    }
}

proof fn lemma_byte_len_sub(s: Seq<char>, a: int, b: int)
    requires
        0 <= a <= b <= s.len(),
    ensures
        byte_len(s.subrange(a, b)) <= byte_len(s),
{
    assert(s == s.subrange(0, a) + s.subrange(a, b) + s.subrange(b, s.len() as int));
    lemma_byte_len_concat(s.subrange(0, a) + s.subrange(a, b), s.subrange(b, s.len() as int));
    lemma_byte_len_concat(s.subrange(0, a), s.subrange(a, b));
}

proof fn lemma_byte_len_spaces(n: nat)
    ensures
        byte_len(spaces(n)) == n,
    decreases n,
{
    if n > 0 {
        lemma_byte_len_spaces((n - 1) as nat);
        assert(spaces(n) == spaces((n - 1) as nat).push(' '));
        lemma_byte_len_push(spaces((n - 1) as nat), ' ');
    } else {
        assert(spaces(0) == Seq::<char>::empty());
    }
}

/// Every character of `s` is one byte wide in UTF-8 (ASCII).
pub open spec fn one_byte_chars(s: Seq<char>) -> bool {
    forall|i: int| 0 <= i < s.len() ==> #[trigger] char_width(s[i]) == 1
}

proof fn lemma_one_byte_len(s: Seq<char>)
    requires
        one_byte_chars(s),
    ensures
        byte_len(s) == s.len(),
    decreases s.len(),
{
    if s.len() > 0 {
        let t = s.drop_last();
        assert(one_byte_chars(t)) by {
            assert forall|i: int| 0 <= i < t.len() implies #[trigger] char_width(t[i]) == 1 by {
                assert(t[i] == s[i]);
            }
        }
        lemma_one_byte_len(t);
        assert(s == t.push(s.last()));
        lemma_byte_len_push(t, s.last());
        assert(char_width(s[s.len() - 1]) == 1);
    } else {
        assert(encode_utf8(s) == Seq::<u8>::empty());
    }
}

proof fn lemma_ascii_width(c: char)
    requires
        (c as u32) < 0x80,
    ensures
        char_width(c) == 1,
{
}

/// Padding a line no wider than `cols` makes it exactly `cols` wide.
proof fn lemma_pad_width(x: Seq<char>, cols: nat)
    requires
        byte_len(x) <= cols,
    ensures
        byte_len(pad_spec(x, cols)) == cols,
        one_byte_chars(x) ==> one_byte_chars(pad_spec(x, cols)),
{
    if byte_len(x) < cols {
        let n = (cols - byte_len(x)) as nat;
        lemma_byte_len_concat(x, spaces(n));
        lemma_byte_len_spaces(n);
        lemma_ascii_width(' ');
        let p = x + spaces(n);
        assert(one_byte_chars(x) ==> one_byte_chars(p)) by {
            if one_byte_chars(x) {
                assert forall|i: int| 0 <= i < p.len() implies #[trigger] char_width(p[i]) == 1 by {
                    if i >= x.len() {
                        assert(p[i] == ' ');
                    }
                }
            }
        }
    }
}

/// Lines whose characters are all one byte wide, each `cols` wide.
pub open spec fn full_width_lines(lines: Seq<Seq<char>>, cols: nat) -> bool {
    forall|j: int| 0 <= j < lines.len() ==> byte_len(#[trigger] lines[j]) == cols && one_byte_chars(lines[j])
}

/// Breaking one-byte text into lines of at least one column: the finished
/// lines are exactly `cols` wide, and the line being filled is no wider.
proof fn lemma_wrap_widths(s: Seq<char>, cols: nat)
    requires
        one_byte_chars(s),
        cols >= 1,
    ensures
        wrap_spec(s, cols) matches Some((lines, line)) ==> {
            &&& full_width_lines(lines, cols)
            &&& byte_len(line) <= cols
            &&& one_byte_chars(line)
        },
    decreases s.len(),
{
    if s.len() > 0 {
        let t = s.drop_last();
        let c = s.last();
        assert(one_byte_chars(t)) by {
            assert forall|i: int| 0 <= i < t.len() implies #[trigger] char_width(t[i]) == 1 by {
                assert(t[i] == s[i]);
            }
        }
        assert(char_width(s[s.len() - 1]) == 1);
        lemma_wrap_widths(t, cols);
        if let Some((lines, line)) = wrap_spec(t, cols) {
            lemma_one_byte_len(line);
            lemma_last_ws_bound(line);
            let k = last_ws(line);
            if breaks_before(lines.len() == 0, line, c, cols) {
                if c != '\n' && k >= 0 {
                    let head = line.take(k);
                    let rest = line.skip(k + 1);
                    assert(one_byte_chars(head)) by {
                        assert forall|i: int| 0 <= i < head.len() implies #[trigger] char_width(head[i]) == 1 by {
                            assert(head[i] == line[i]);
                        }
                    }
                    assert(one_byte_chars(rest.push(c))) by {
                        assert forall|i: int| 0 <= i < rest.push(c).len() implies #[trigger] char_width(rest.push(c)[i]) == 1 by {
                            if i < rest.len() {
                                assert(rest.push(c)[i] == line[i + k + 1]);
                            }
                        }
                    }
                    lemma_one_byte_len(head);
                    lemma_one_byte_len(rest.push(c));
                    assert(char_width(line[k]) == 1);
                    lemma_pad_width(head, cols);
                    let nl = lines.push(pad_spec(head, cols));
                    assert(full_width_lines(nl, cols)) by {
                        assert forall|j: int| 0 <= j < nl.len() implies byte_len(#[trigger] nl[j]) == cols && one_byte_chars(nl[j]) by {
                            if j < lines.len() {
                                assert(nl[j] == lines[j]);
                            }
                        }
                    }
                } else {
                    lemma_pad_width(line, cols);
                    let nl = lines.push(pad_spec(line, cols));
                    assert(full_width_lines(nl, cols)) by {
                        assert forall|j: int| 0 <= j < nl.len() implies byte_len(#[trigger] nl[j]) == cols && one_byte_chars(nl[j]) by {
                            if j < lines.len() {
                                assert(nl[j] == lines[j]);
                            }
                        }
                    }
                    if c != '\n' {
                        let e = Seq::<char>::empty().push(c);
                        assert(one_byte_chars(e)) by {
                            assert(e[0] == c);
                        }
                        lemma_one_byte_len(e);
                    } else {
                        lemma_one_byte_len(Seq::<char>::empty());
                    }
                }
            } else {
                let l2 = line.push(c);
                assert(one_byte_chars(l2)) by {
                    assert forall|i: int| 0 <= i < l2.len() implies #[trigger] char_width(l2[i]) == 1 by {
                        if i < line.len() {
                            assert(l2[i] == line[i]);
                        }
                    }
                }
                lemma_one_byte_len(l2);
            }
        }
    } else {
        lemma_one_byte_len(Seq::<char>::empty());
    }
}

proof fn lemma_take_one_byte(s: Seq<char>, n: int)
    requires
        one_byte_chars(s),
        0 <= n <= s.len(),
    ensures
        one_byte_chars(s.take(n)),
        byte_len(s.take(n)) == n,
{
    assert forall|i: int| 0 <= i < s.take(n).len() implies #[trigger] char_width(s.take(n)[i]) == 1 by {
        assert(s.take(n)[i] == s[i]);
    }
    lemma_one_byte_len(s.take(n));
}

/// Every line of `lines` is made of one-byte characters.
pub open spec fn one_byte_lines(lines: Seq<Seq<char>>) -> bool {
    forall|j: int| 0 <= j < lines.len() ==> one_byte_chars(#[trigger] lines[j])
}

proof fn lemma_pad_one_byte(x: Seq<char>, cols: nat)
    requires
        one_byte_chars(x),
    ensures
        one_byte_chars(pad_spec(x, cols)),
{
    if byte_len(x) < cols {
        lemma_pad_width(x, cols);
    }
}

proof fn lemma_push_one_byte(lines: Seq<Seq<char>>, l: Seq<char>)
    requires
        one_byte_lines(lines),
        one_byte_chars(l),
    ensures
        one_byte_lines(lines.push(l)),
{
    let nl = lines.push(l);
    assert forall|j: int| 0 <= j < nl.len() implies one_byte_chars(#[trigger] nl[j]) by {
        if j < lines.len() {
            assert(nl[j] == lines[j]);
        }
    }
}

/// Breaking one-byte text into lines never fails, and every line it gives
/// is made of one-byte characters.
proof fn lemma_wrap_one_byte(s: Seq<char>, cols: nat)
    requires
        one_byte_chars(s),
    ensures
        wrap_spec(s, cols) matches Some((lines, line)) && one_byte_lines(lines) && one_byte_chars(line),
    decreases s.len(),
{
    if s.len() > 0 {
        let t = s.drop_last();
        let c = s.last();
        assert(one_byte_chars(t)) by {
            assert forall|i: int| 0 <= i < t.len() implies #[trigger] char_width(t[i]) == 1 by {
                assert(t[i] == s[i]);
            }
        }
        assert(char_width(s[s.len() - 1]) == 1);
        lemma_wrap_one_byte(t, cols);
        let (lines, line) = wrap_spec(t, cols).unwrap();
        lemma_last_ws_bound(line);
        let k = last_ws(line);
        if breaks_before(lines.len() == 0, line, c, cols) {
            if c != '\n' && k >= 0 {
                let head = line.take(k);
                let rest = line.skip(k + 1);
                assert(char_width(line[k]) == 1);
                assert(one_byte_chars(head)) by {
                    assert forall|i: int| 0 <= i < head.len() implies #[trigger] char_width(head[i]) == 1 by {
                        assert(head[i] == line[i]);
                    }
                }
                assert(one_byte_chars(rest.push(c))) by {
                    assert forall|i: int| 0 <= i < rest.push(c).len() implies #[trigger] char_width(rest.push(c)[i]) == 1 by {
                        if i < rest.len() {
                            assert(rest.push(c)[i] == line[i + k + 1]);
                        }
                    }
                }
                lemma_pad_one_byte(head, cols);
                lemma_push_one_byte(lines, pad_spec(head, cols));
            } else {
                lemma_pad_one_byte(line, cols);
                lemma_push_one_byte(lines, pad_spec(line, cols));
                if c != '\n' {
                    let e = Seq::<char>::empty().push(c);
                    assert(one_byte_chars(e)) by {
                        assert(e[0] == c);
                    }
                }
            }
        } else {
            let l2 = line.push(c);
            assert(one_byte_chars(l2)) by {
                assert forall|i: int| 0 <= i < l2.len() implies #[trigger] char_width(l2[i]) == 1 by {
                    if i < line.len() {
                        assert(l2[i] == line[i]);
                    }
                }
            }
        }
    }
}

/// A message of one-byte characters can always be shown: its lines exist
/// for every size of the terminal.
pub proof fn ascii_message_has_lines(text: Seq<char>, cols: nat, num_lines: nat)
    requires
        one_byte_chars(text),
    ensures
        message_lines_spec(text, cols, num_lines) is Some,
{
    let trimmed = trim_spec(text);
    lemma_trim_infix(text);
    assert(one_byte_chars(trimmed)) by {
        assert forall|i: int| 0 <= i < trimmed.len() implies #[trigger] char_width(trimmed[i]) == 1 by {
            assert(trimmed[i] == text[leading_ws(text) + i]);
        }
    }
    lemma_wrap_one_byte(trimmed, cols);
    let (lines, line) = wrap_spec(trimmed, cols).unwrap();
    lemma_pad_one_byte(line, cols);
    lemma_push_one_byte(lines, pad_spec(line, cols));
    let all = lines.push(pad_spec(line, cols));
    let max: nat = if num_lines >= 3 {
        (num_lines - 3) as nat
    } else {
        0
    };
    let limited = limit_lines(all, max, cols);
    if 4 <= cols && limited.len() > 0 {
        let first0 = limited[0];
        assert(one_byte_chars(first0)) by {
            if all.len() > max {
                let kept = all.take(max as int);
                if 19 <= cols && kept.len() > 0 && kept.len() - 1 == 0 {
                    let t = truncated_message_text();
                    assert(one_byte_chars(t)) by {
                        assert forall|i: int| 0 <= i < t.len() implies #[trigger] char_width(t[i]) == 1 by {
                            lemma_ascii_width(t[i]);
                        }
                    }
                    lemma_pad_one_byte(t, cols);
                } else {
                    assert(first0 == all[0]);
                }
            } else {
                assert(first0 == all[0]);
            }
        }
        let n = (cols - 4) as nat;
        lemma_one_byte_len(first0);
        if n < byte_len(first0) {
            lemma_take_one_byte(first0, n as int);
            assert(exists|j: int| 0 <= j <= first0.len() && byte_len(#[trigger] first0.take(j)) == n);
        }
    }
}

/// Every line that shows a message of one-byte characters, in at least one
/// column, is exactly `cols` bytes wide: the text is broken and padded to
/// the width, the marker of a cut message is padded too, and the close
/// button takes the end of the first line.
pub proof fn ascii_message_lines_fill_width(text: Seq<char>, cols: nat, num_lines: nat)
    requires
        one_byte_chars(text),
        cols >= 1,
    ensures
        message_lines_spec(text, cols, num_lines) matches Some(ls) ==> forall|j: int|
            0 <= j < ls.len() ==> byte_len(#[trigger] ls[j]) == cols,
{
    let trimmed = trim_spec(text);
    lemma_trim_infix(text);
    assert(one_byte_chars(trimmed)) by {
        assert forall|i: int| 0 <= i < trimmed.len() implies #[trigger] char_width(trimmed[i]) == 1 by {
            assert(trimmed[i] == text[leading_ws(text) + i]);
        }
    }
    lemma_wrap_widths(trimmed, cols);
    if let Some((lines, line)) = wrap_spec(trimmed, cols) {
        lemma_pad_width(line, cols);
        let all = lines.push(pad_spec(line, cols));
        assert(full_width_lines(all, cols)) by {
            assert forall|j: int| 0 <= j < all.len() implies byte_len(#[trigger] all[j]) == cols && one_byte_chars(all[j]) by {
                if j < lines.len() {
                    assert(all[j] == lines[j]);
                }
            }
        }
        let max: nat = if num_lines >= 3 {
            (num_lines - 3) as nat
        } else {
            0
        };
        let limited = limit_lines(all, max, cols);
        assert(full_width_lines(limited, cols)) by {
            if all.len() > max {
                let kept = all.take(max as int);
                assert(full_width_lines(kept, cols)) by {
                    assert forall|j: int| 0 <= j < kept.len() implies byte_len(#[trigger] kept[j]) == cols && one_byte_chars(kept[j]) by {
                        assert(kept[j] == all[j]);
                    }
                }
                if 19 <= cols && kept.len() > 0 {
                    let t = truncated_message_text();
                    assert(one_byte_chars(t)) by {
                        assert forall|i: int| 0 <= i < t.len() implies #[trigger] char_width(t[i]) == 1 by {
                            lemma_ascii_width(t[i]);
                        }
                    }
                    lemma_one_byte_len(t);
                    lemma_pad_width(t, cols);
                    let u = kept.update(kept.len() - 1, pad_spec(t, cols));
                    assert forall|j: int| 0 <= j < u.len() implies byte_len(#[trigger] u[j]) == cols && one_byte_chars(u[j]) by {
                        if j < kept.len() - 1 {
                            assert(u[j] == kept[j]);
                        }
                    }
                }
            }
        }
        if 4 <= cols && limited.len() > 0 {
            let first0 = limited[0];
            assert(byte_len(first0) == cols && one_byte_chars(first0));
            let n = (cols - 4) as nat;
            lemma_one_byte_len(first0);
            lemma_take_one_byte(first0, n as int);
            assert(exists|j: int| 0 <= j <= first0.len() && byte_len(#[trigger] first0.take(j)) == n);
            if let Some(first) = truncate_bytes_spec(first0, n) {
                let b = close_button_text();
                assert(one_byte_chars(b)) by {
                    assert forall|i: int| 0 <= i < b.len() implies #[trigger] char_width(b[i]) == 1 by {
                        lemma_ascii_width(b[i]);
                    }
                }
                lemma_one_byte_len(b);
                lemma_byte_len_concat(first, b);
                let ls = limited.update(0, first + b);
                assert forall|j: int| 0 <= j < ls.len() implies byte_len(#[trigger] ls[j]) == cols by {
                    if j > 0 {
                        assert(ls[j] == limited[j]);
                    }
                }
            }
        }
    }
}

/// The UTF-8 width of a character.
fn char_width_of(c: char) -> (w: usize)
    ensures
        w == char_width(c),
        1 <= w <= 4,
{
    proof {
        vstd::utf8::char_is_scalar(c);
    }
    let n = c as u32;
    if n <= 0x7f {
        1
    } else if n <= 0x7ff {
        2
    } else if n <= 0xffff {
        3
    } else {
        4
    }
}

/// The UTF-8 width of `v[a..b]`, which is known to fit.
fn bytes_of(v: &Vec<char>, a: usize, b: usize) -> (n: usize)
    requires
        a <= b <= v@.len(),
        byte_len(v@.subrange(a as int, b as int)) <= usize::MAX,
    ensures
        n == byte_len(v@.subrange(a as int, b as int)),
{
    let mut n: usize = 0;
    let mut i = a;
    while i < b
        invariant
            a <= i <= b <= v@.len(),
            n == byte_len(v@.subrange(a as int, i as int)),
            byte_len(v@.subrange(a as int, b as int)) <= usize::MAX,
        decreases b - i,
    {
        proof {
            assert(v@.subrange(a as int, i + 1) == v@.subrange(a as int, i as int).push(v@[i as int]));
            lemma_byte_len_push(v@.subrange(a as int, i as int), v@[i as int]);
            lemma_byte_len_sub(v@.subrange(a as int, b as int), 0, i + 1 - a);
            assert(v@.subrange(a as int, b as int).subrange(0, i + 1 - a) == v@.subrange(a as int, i + 1));
        }
        n = n + char_width_of(v[i]);
        i = i + 1;
    }
    n
}

/// `v` right-padded with spaces to `cols` bytes; `bytes` is its width.
fn pad_chars(v: Vec<char>, bytes: usize, cols: usize) -> (r: Vec<char>)
    requires
        bytes == byte_len(v@),
    ensures
        r@ == pad_spec(v@, cols as nat),
{
    let mut r = v;
    if bytes < cols {
        let n = cols - bytes;
        let mut i: usize = 0;
        while i < n
            invariant
                i <= n,
                n == cols - bytes,
                r@ == v@ + spaces(i as nat),
            decreases n - i,
        {
            r.push(' ');
            assert(spaces((i + 1) as nat) == spaces(i as nat).push(' '));
            i = i + 1;
        }
    }
    r
}

/// A copy of `v[a..b]`.
fn copy_range(v: &Vec<char>, a: usize, b: usize) -> (r: Vec<char>)
    requires
        a <= b <= v@.len(),
    ensures
        r@ == v@.subrange(a as int, b as int),
{
    let mut r: Vec<char> = Vec::new();
    let mut i = a;
    while i < b
        invariant
            a <= i <= b <= v@.len(),
            r@ == v@.subrange(a as int, i as int),
        decreases b - i,
    {
        r.push(v[i]);
        i = i + 1;
    }
    r
}

/// The views of a sequence of character vectors.
pub open spec fn views(lines: Seq<Vec<char>>) -> Seq<Seq<char>> {
    lines.map_values(|l: Vec<char>| l@)
}


proof fn lemma_wrap_none_grows(s: Seq<char>, i: int, cols: nat)
    requires
        0 <= i <= s.len(),
        wrap_spec(s.take(i), cols) is None,
    ensures
        wrap_spec(s, cols) is None,
    decreases s.len() - i,
{
    if i < s.len() {
        assert(s.take(i + 1).drop_last() == s.take(i));
        lemma_wrap_none_grows(s, i + 1, cols);
    } else {
        assert(s.take(i) == s);
    }
}

proof fn lemma_last_ws_bound(s: Seq<char>)
    ensures
        -1 <= last_ws(s) < s.len(),
        last_ws(s) >= 0 ==> is_whitespace_spec(s[last_ws(s)]),
    decreases s.len(),
{
    if s.len() > 0 && !is_whitespace_spec(s.last()) {
        lemma_last_ws_bound(s.drop_last());
    }
}

/// Index of the last whitespace character of `v`, if any.
fn last_ws_index(v: &Vec<char>) -> (r: Option<usize>)
    ensures
        r matches Some(k) ==> k == last_ws(v@) && k < v@.len(),
        r is None ==> last_ws(v@) == -1,
{
    let mut i = v.len();
    assert(v@.take(i as int) == v@);
    while i > 0
        invariant
            i <= v@.len(),
            last_ws(v@) == last_ws(v@.take(i as int)),
        decreases i,
    {
        assert(v@.take(i as int).drop_last() == v@.take(i - 1));
        if is_whitespace(v[i - 1]) {
            return Some(i - 1);
        }
        i = i - 1;
    }
    None
}

proof fn lemma_take_bytes_unique(s: Seq<char>, a: int, b: int)
    requires
        0 <= a <= s.len(),
        0 <= b <= s.len(),
        byte_len(s.take(a)) == byte_len(s.take(b)),
    ensures
        a == b,
{
    if a < b {
        lemma_byte_len_take_mono(s, a, b);
    } else if b < a {
        lemma_byte_len_take_mono(s, b, a);
    }
}

/// `s` cut to its first `n` bytes, or `None` where byte `n` falls inside a
/// character.
fn truncate_chars(s: &Vec<char>, n: usize) -> (r: Option<Vec<char>>)
    requires
        n <= usize::MAX - 4,
    ensures
        truncate_bytes_spec(s@, n as nat) is None ==> r is None,
        truncate_bytes_spec(s@, n as nat) matches Some(t) ==> (r matches Some(v) && v@ == t),
{
    let mut acc: usize = 0;
    let mut j: usize = 0;
    while j < s.len() && acc < n
        invariant
            j <= s@.len(),
            acc == byte_len(s@.take(j as int)),
            n <= usize::MAX - 4,
            j > 0 ==> byte_len(s@.take(j - 1)) < n,
        decreases s@.len() - j,
    {
        proof {
            assert(s@.take(j + 1) == s@.take(j as int).push(s@[j as int]));
            lemma_byte_len_push(s@.take(j as int), s@[j as int]);
        }
        acc = acc + char_width_of(s[j]);
        j = j + 1;
    }
    if acc <= n && j == s.len() {
        assert(s@.take(j as int) == s@);
        return Some(copy_range(s, 0, s.len()));
    }
    proof {
        lemma_byte_len_sub(s@, 0, j as int);
        assert(s@.subrange(0, j as int) == s@.take(j as int));
        if j < s@.len() {
            lemma_byte_len_take_mono(s@, j as int, s@.len() as int);
            assert(s@.take(s@.len() as int) == s@);
        }
    }
    if acc == n {
        proof {
            assert(byte_len(s@.take(j as int)) == n);
            let w = choose|w: int| 0 <= w <= s@.len() && byte_len(#[trigger] s@.take(w)) == n;
            lemma_take_bytes_unique(s@, w, j as int);
        }
        Some(copy_range(s, 0, j))
    } else {
        proof {
            assert forall|w: int| 0 <= w <= s@.len() implies byte_len(#[trigger] s@.take(w)) != n by {
                if w < j {
                    if w < j - 1 {
                        lemma_byte_len_take_mono(s@, w, j - 1);
                    }
                } else if w > j {
                    lemma_byte_len_take_mono(s@, j as int, w);
                }
            }
        }
        None
    }
}

/// Breaks the characters `t` into lines as `wrap_spec` does; the line being
/// filled comes with its width in bytes.
fn wrap_lines(t: &Vec<char>, cols: usize) -> (r: Option<(Vec<Vec<char>>, Vec<char>, usize)>)
    requires
        byte_len(t@) <= usize::MAX,
    ensures
        wrap_spec(t@, cols as nat) is None ==> r is None,
        wrap_spec(t@, cols as nat) matches Some((lines, line)) ==> (r matches Some((l, ln, b))
            && views(l@) == lines && ln@ == line && b == byte_len(line)),
{
    let mut lines: Vec<Vec<char>> = Vec::new();
    let mut line: Vec<char> = Vec::new();
    let mut line_bytes: usize = 0;
    let ghost mut ls: int = 0;
    let mut i: usize = 0;
    assert(t@.take(0) == Seq::<char>::empty());
    assert(views(lines@) == Seq::<Seq<char>>::empty());
    while i < t.len()
        invariant
            i <= t@.len(),
            byte_len(t@) <= usize::MAX,
            0 <= ls <= i,
            line@ == t@.subrange(ls, i as int),
            line_bytes == byte_len(line@),
            wrap_spec(t@.take(i as int), cols as nat) == Some((views(lines@), line@)),
        decreases t@.len() - i,
    {
        let c = t[i];
        let ghost old_lines = views(lines@);
        let ghost old_line = line@;
        proof {
            assert(t@.take(i + 1).drop_last() == t@.take(i as int));
            assert(t@.take(i + 1).last() == c);
            lemma_byte_len_sub(t@, ls, i as int);
            lemma_last_ws_bound(line@);
        }
        let first = lines.len() == 0;
        let brk = c == '\n' || line_bytes == cols || (first && cols >= 4 && line_bytes == cols - 4);
        if brk {
            let found = if c != '\n' {
                last_ws_index(&line)
            } else {
                None
            };
            match found {
                Some(k) => {
                    if char_width_of(line[k]) != 1 {
                        proof {
                            lemma_wrap_none_grows(t@, i + 1, cols as nat);
                        }
                        return None;
                    }
                    proof {
                        lemma_byte_len_sub(line@, 0, k as int);
                        lemma_byte_len_sub(line@, k + 1, line@.len() as int);
                        assert(line@.subrange(0, k as int) == line@.take(k as int));
                        assert(line@.subrange(k + 1, line@.len() as int) == line@.skip(k + 1));
                    }
                    let head_bytes = bytes_of(&line, 0, k);
                    let head = copy_range(&line, 0, k);
                    let rest_bytes = bytes_of(&line, k + 1, line.len());
                    let rest = copy_range(&line, k + 1, line.len());
                    let padded = pad_chars(head, head_bytes, cols);
                    lines.push(padded);
                    line = rest;
                    line_bytes = rest_bytes;
                    proof {
                        assert(views(lines@) == old_lines.push(pad_spec(old_line.take(k as int), cols as nat)));
                        assert(line@ == t@.subrange(ls + k + 1, i as int));
                        ls = ls + k + 1;
                    }
                },
                None => {
                    let old = line;
                    let padded = pad_chars(old, line_bytes, cols);
                    lines.push(padded);
                    line = Vec::new();
                    line_bytes = 0;
                    proof {
                        assert(views(lines@) == old_lines.push(pad_spec(old_line, cols as nat)));
                        ls = i as int;
                        assert(line@ == t@.subrange(ls, i as int));
                    }
                },
            }
        }
        if c != '\n' {
            proof {
                assert(t@.subrange(ls, i + 1) == t@.subrange(ls, i as int).push(c));
                lemma_byte_len_push(line@, c);
                lemma_byte_len_sub(t@, ls, i + 1);
            }
            line.push(c);
            line_bytes = line_bytes + char_width_of(c);
        } else {
            proof {
                ls = i + 1;
                assert(line@ == t@.subrange(ls, i + 1));
            }
        }
        i = i + 1;
    }
    assert(t@.take(i as int) == t@);
    Some((lines, line, line_bytes))
}

/// The characters of "[MESSAGE TRUNCATED]".
fn truncated_marker() -> (r: Vec<char>)
    ensures
        r@ == truncated_message_text(),
        byte_len(r@) == 19,
{
    let r = vec!['[', 'M', 'E', 'S', 'S', 'A', 'G', 'E', ' ', 'T', 'R', 'U', 'N', 'C', 'A', 'T', 'E', 'D', ']'];
    proof {
        assert(r@ == truncated_message_text());
        vstd::utf8::is_ascii_chars_encode_utf8(r@);
    }
    r
}

/// Message for display in the message bar.
#[derive(Debug, Eq, PartialEq)]
pub struct Message {
    text: String,
    color: Rgb,
    topic: Option<String>,
}

impl Clone for Message {
    fn clone(&self) -> (r: Message)
        ensures
            r.spec_text() == self.spec_text(),
            r.spec_color() == self.spec_color(),
            r.spec_topic() == self.spec_topic(),
    {
        let topic = match &self.topic {
            Some(t) => Some(t.clone()),
            None => None,
        };
        Message { text: self.text.clone(), color: self.color, topic }
    }
}

/// Two messages with the same text, color and topic.
pub open spec fn same_message(a: Message, b: Message) -> bool {
    &&& a.spec_text() == b.spec_text()
    &&& a.spec_color() == b.spec_color()
    &&& a.spec_topic() == b.spec_topic()
}

/// Whether `m` is a message of the topic `topic`.
pub open spec fn has_topic(m: Option<Message>, topic: Seq<char>) -> bool {
    m matches Some(msg) && msg.spec_topic() == Some(topic)
}

impl Message {
    pub closed spec fn spec_text(&self) -> Seq<char> {
        self.text@
    }

    pub closed spec fn spec_color(&self) -> Rgb {
        self.color
    }

    pub closed spec fn spec_topic(&self) -> Option<Seq<char>> {
        match self.topic {
            Some(t) => Some(t@),
            None => None,
        }
    }

    /// Create a new message
    pub fn new(text: String, color: Rgb) -> (r: Message)
        ensures
            r.spec_text() == text@,
            r.spec_color() == color,
            r.spec_topic() is None,
    {
        Message { text, color, topic: None }
    }

    /// Message color
    pub fn color(&self) -> (r: Rgb)
        ensures
            r == self.spec_color(),
    {
        self.color
    }

    /// Message topic
    pub fn topic(&self) -> (r: Option<&String>)
        ensures
            self.spec_topic() is None ==> r is None,
            self.spec_topic() matches Some(t) ==> (r matches Some(s) && s@ == t),
    {
        self.topic.as_ref()
    }

    /// Update the message topic
    pub fn set_topic(&mut self, topic: String)
        ensures
            final(self).spec_topic() == Some(topic@),
            final(self).spec_text() == old(self).spec_text(),
            final(self).spec_color() == old(self).spec_color(),
    {
        self.topic = Some(topic);
    }

    /// Formatted message text lines, for a terminal of `num_cols` columns
    /// and `num_lines` lines; `None` on the inputs where a byte split would
    /// fall inside a character.
    pub fn try_text(&self, num_cols: usize, num_lines: usize) -> (r: Option<Vec<String>>)
        ensures
            message_lines_spec(self.spec_text(), num_cols as nat, num_lines as nat) is None ==> r is None,
            message_lines_spec(self.spec_text(), num_cols as nat, num_lines as nat) matches Some(lines)
                ==> (r matches Some(v) && v@.map_values(|s: String| s@) == lines),
    {
        let nbytes = self.text.as_str().as_bytes().len();
        let all = str_chars(self.text.as_str());
        assert(all@.subrange(0, all@.len() as int) == all@);
        let (a, b) = trim_bounds(&all, 0, all.len());
        let t = copy_range(&all, a, b);
        proof {
            lemma_byte_len_sub(all@, a as int, b as int);
        }
        let (mut lines, line, line_bytes) = match wrap_lines(&t, num_cols) {
            Some(w) => w,
            None => {
                return None;
            },
        };
        let ghost wrapped = views(lines@);
        let padded = pad_chars(line, line_bytes, num_cols);
        lines.push(padded);
        let ghost all_lines = views(lines@);
        assert(all_lines == wrapped.push(pad_spec(line@, num_cols as nat)));
        let max: usize = if num_lines >= 3 {
            num_lines - 3
        } else {
            0
        };
        if lines.len() > max {
            lines.truncate(max);
            assert(views(lines@) == all_lines.take(max as int));
            if 19 <= num_cols && lines.len() > 0 {
                let marker = truncated_marker();
                let last = lines.len() - 1;
                let ghost kept = views(lines@);
                lines.set(last, pad_chars(marker, 19, num_cols));
                assert(views(lines@) == kept.update(kept.len() - 1, pad_spec(
                    truncated_message_text(),
                    num_cols as nat,
                )));
            }
        }
        let ghost limited = views(lines@);
        assert(limited == limit_lines(all_lines, max as nat, num_cols as nat));
        if 4 <= num_cols && lines.len() > 0 {
            let ghost before = lines@;
            let first = lines.remove(0);
            assert(first@ == limited[0]);
            match truncate_chars(&first, num_cols - 4) {
                Some(mut f) => {
                    let ghost cut = f@;
                    f.push(' ');
                    f.push('[');
                    f.push('X');
                    f.push(']');
                    assert(f@ == cut + close_button_text());
                    lines.insert(0, f);
                    assert(lines@ == before.update(0, f));
                    assert(views(lines@) == limited.update(0, cut + close_button_text()));
                },
                None => {
                    return None;
                },
            }
        }
        let mut out: Vec<String> = Vec::new();
        let mut i: usize = 0;
        while i < lines.len()
            invariant
                i <= lines@.len(),
                out@.map_values(|s: String| s@) == views(lines@).take(i as int),
            decreases lines@.len() - i,
        {
            out.push(string_from_chars(&lines[i]));
            assert(views(lines@).take(i + 1) == views(lines@).take(i as int).push(lines@[i as int]@));
            i = i + 1;
        }
        assert(views(lines@).take(lines@.len() as int) == views(lines@));
        Some(out)
    }

    /// Formatted message text lines, for a terminal of `num_cols` columns
    /// and `num_lines` lines.
    pub fn text(&self, num_cols: usize, num_lines: usize) -> (r: Vec<String>)
        requires
            message_lines_spec(self.spec_text(), num_cols as nat, num_lines as nat) is Some,
        ensures
            r@.map_values(|s: String| s@) == message_lines_spec(
                self.spec_text(),
                num_cols as nat,
                num_lines as nat,
            ).unwrap(),
    {
        match self.try_text(num_cols, num_lines) {
            Some(lines) => lines,
            None => Vec::new(),
        }
    }

    /// Right-pad text to fit a specific number of columns
    pub fn pad_text(text: String, num_cols: usize) -> (r: String)
        ensures
            r@ == pad_spec(text@, num_cols as nat),
    {
        let len = text.as_str().as_bytes().len();
        if len < num_cols {
            let mut r = text;
            let mut i: usize = 0;
            let n = num_cols - len;
            while i < n
                invariant
                    i <= n,
                    n == num_cols - len,
                    r@ == text@ + spaces(i as nat),
                decreases n - i,
            {
                r.append(" ");
                proof {
                    reveal_strlit(" ");
                }
                assert(spaces((i + 1) as nat) == spaces(i as nat).push(' '));
                i = i + 1;
            }
            r
        } else {
            text
        }
    }
}

/// The sending half of a crossbeam channel of messages.
#[verifier::external_type_specification]
#[verifier::external_body]
#[verifier::reject_recursive_types(T)]
pub struct ExSender<T>(crossbeam_channel::Sender<T>);

/// The receiving half of a crossbeam channel of messages.
#[verifier::external_type_specification]
#[verifier::external_body]
#[verifier::reject_recursive_types(T)]
pub struct ExReceiver<T>(crossbeam_channel::Receiver<T>);

/// Calls crossbeam's `unbounded`: a new channel without a bound.
#[verifier::external_body]
fn new_channel() -> (Sender<Message>, Receiver<Message>) {
    crossbeam_channel::unbounded()
}

/// Calls crossbeam's `Receiver::try_recv`: a message that was sent and not
/// yet received, if there is one now. Other senders may have sent it, so
/// nothing is stated of which message it is.
#[verifier::external_body]
fn receive(rx: &Receiver<Message>) -> Option<Message> {
    rx.try_recv().ok()
}

/// Calls crossbeam's `Sender::send`; whether it succeeded.
#[verifier::external_body]
fn send_message(tx: &Sender<Message>, msg: Message) -> bool {
    tx.send(msg).is_ok()
}

/// Calls crossbeam's `Receiver::len`: how many messages wait now; other
/// handles may change that at any time, so nothing is stated of it.
#[verifier::external_body]
fn pending(rx: &Receiver<Message>) -> usize {
    rx.len()
}

/// Calls crossbeam's `Sender::clone`: another sender into the same channel.
#[verifier::external_body]
fn clone_sender(tx: &Sender<Message>) -> Sender<Message> {
    tx.clone()
}

/// Storage for the message bar: the message shown, and the channel that
/// brings the next ones.
#[derive(Debug)]
pub struct MessageBar {
    current: Option<Message>,
    messages: Receiver<Message>,
    tx: Sender<Message>,
}

/// Whether `current` is a message of topic `topic`.
fn current_has_topic(current: &Option<Message>, topic: &String) -> (r: bool)
    ensures
        r == has_topic(*current, topic@),
{
    match current {
        Some(m) => match &m.topic {
            Some(t) => *t == *topic,
            None => false,
        },
        None => false,
    }
}

impl MessageBar {
    /// The message being shown, if any.
    pub closed spec fn spec_current(&self) -> Option<Message> {
        self.current
    }

    /// Create new message bar
    pub fn new() -> (r: MessageBar)
        ensures
            r.spec_current() is None,
    {
        let (tx, messages) = new_channel();
        MessageBar { current: None, messages, tx }
    }

    /// Check if there are any messages queued
    pub fn is_empty(&self) -> (r: bool)
        ensures
            r == self.spec_current() is None,
    {
        self.current.is_none()
    }

    /// Current message: the one shown, or else the next one received,
    /// which is shown from then on.
    pub fn message(&mut self) -> (r: Option<Message>)
        ensures
            old(self).spec_current() matches Some(m) ==> final(self).spec_current() == old(self).spec_current(),
            old(self).spec_current() matches Some(m) ==> (r matches Some(c) && same_message(c, m)),
            old(self).spec_current() is None ==> (final(self).spec_current() is None <==> r is None),
            old(self).spec_current() is None ==> (final(self).spec_current() matches Some(m) ==> (
            r matches Some(c) && same_message(c, m))),
    {
        if let Some(current) = &self.current {
            Some(current.clone())
        } else {
            self.current = receive(&self.messages);
            match &self.current {
                Some(m) => Some(m.clone()),
                None => None,
            }
        }
    }

    /// Channel for adding new messages
    pub fn tx(&self) -> Sender<Message> {
        clone_sender(&self.tx)
    }

    /// Remove the currently visible message; the next one received, if
    /// any, is shown instead.
    pub fn pop(&mut self) -> (r: Option<Message>)
        ensures
            r == old(self).spec_current(),
    {
        let next = receive(&self.messages);
        let shown = self.current.take();
        self.current = next;
        shown
    }

    /// Remove all messages with a specific topic: the shown message, and
    /// those waiting in the channel now. After `usize::MAX` messages of the
    /// topic in a row, the shown one is dropped too.
    pub fn remove_topic(&mut self, topic: String)
        ensures
            !has_topic(final(self).spec_current(), topic@),
            !has_topic(old(self).spec_current(), topic@) ==> final(self).spec_current() == old(
                self,
            ).spec_current(),
    {
        if current_has_topic(&self.current, &topic) {
            let mut budget: usize = usize::MAX;
            while budget > 0 && current_has_topic(&self.current, &topic)
                decreases budget,
            {
                self.pop();
                budget = budget - 1;
            }
            if current_has_topic(&self.current, &topic) {
                self.current = None;
            }
        }
        let n = pending(&self.messages);
        let mut i: usize = 0;
        let ghost shown = self.current;
        while i < n
            invariant
                !has_topic(self.current, topic@),
                self.current == shown,
            decreases n - i,
        {
            match receive(&self.messages) {
                Some(msg) => {
                    if !current_has_topic(&Some(msg.clone()), &topic) {
                        send_message(&self.tx, msg);
                    }
                },
                None => {
                    break ;
                },
            }
            i = i + 1;
        }
    }
}

impl Default for MessageBar {
    fn default() -> (r: MessageBar)
        ensures
            r.spec_current() is None,
    {
        MessageBar::new()
    }
}

} // verus!
