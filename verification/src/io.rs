//! Reading characters from a byte stream as UTF-8: the width a first byte
//! announces, which continuation bytes are allowed, and the character that
//! the bytes encode.
use vstd::prelude::*;
use vstd::utf8::{
    encode_scalar, has_width_1_encoding, has_width_2_encoding, has_width_3_encoding,
    has_width_4_encoding, is_scalar,
};

verus! {

/// The number of bytes that a UTF-8 sequence starting with `b` has, or 0
/// when `b` cannot start one.
pub open spec fn utf8_width_spec(b: u8) -> nat {
    if b <= 0x7f {
        1
    } else if b <= 0xc1 {
        0
    } else if b <= 0xdf {
        2
    } else if b <= 0xef {
        3
    } else if b <= 0xf4 {
        4
    } else {
        0
    }
}

/// Given a first byte, determine how many bytes are in this UTF-8 character
pub fn utf8_char_width(b: u8) -> (r: usize)
    ensures
        r == utf8_width_spec(b),
{
    if b <= 0x7f {
        1
    } else if b <= 0xc1 {
        0
    } else if b <= 0xdf {
        2
    } else if b <= 0xef {
        3
    } else if b <= 0xf4 {
        4
    } else {
        0
    }
}

/// An iterator over the `char`s of a reader.
pub struct Utf8Chars<R> {
    pub inner: R,
}

impl<R> Utf8Chars<R> {
    pub fn new(inner: R) -> (r: Utf8Chars<R>)
        ensures
            r.inner == inner,
    {
        Utf8Chars { inner }
    }
}

/// The errors that reading characters gives.
#[derive(Debug)]
pub enum Utf8CharsError {
    /// The stream holds a byte sequence ill-formed in UTF-8.
    InvalidUtf8,
    /// The stream ends inside a well-begun sequence; holds the number of
    /// bytes read of it.
    IncompleteUtf8(u8),
    /// An I/O error occurred.
    Io(std::io::Error),
}

/// Whether `b` may stand at position `pos` (1 to 3) of a sequence that
/// starts with `first`, following RFC 3629: the second byte's range
/// excludes overlong forms, surrogates and values above U+10FFFF.
pub open spec fn continuation_ok_spec(first: u8, pos: nat, b: u8) -> bool {
    if pos == 1 {
        if first == 0xe0 {
            0xa0 <= b <= 0xbf
        } else if first == 0xed {
            0x80 <= b <= 0x9f
        } else if first == 0xf0 {
            0x90 <= b <= 0xbf
        } else if first == 0xf4 {
            0x80 <= b <= 0x8f
        } else {
            0x80 <= b <= 0xbf
        }
    } else {
        0x80 <= b <= 0xbf
    }
}

/// Whether `b` may follow at position `pos` of a sequence starting with `first`.
pub fn continuation_ok(first: u8, pos: usize, b: u8) -> (r: bool)
    ensures
        r == continuation_ok_spec(first, pos as nat, b),
{
    if pos == 1 {
        if first == 0xe0 {
            0xa0 <= b && b <= 0xbf
        } else if first == 0xed {
            0x80 <= b && b <= 0x9f
        } else if first == 0xf0 {
            0x90 <= b && b <= 0xbf
        } else if first == 0xf4 {
            0x80 <= b && b <= 0x8f
        } else {
            0x80 <= b && b <= 0xbf
        }
    } else {
        0x80 <= b && b <= 0xbf
    }
}

/// A well-begun sequence: a first byte that starts one, followed by
/// allowed continuation bytes, no more than it announces.
pub open spec fn accepted_prefix(bytes: Seq<u8>) -> bool {
    &&& bytes.len() >= 1
    &&& utf8_width_spec(bytes[0]) >= 1
    &&& bytes.len() <= utf8_width_spec(bytes[0])
    &&& forall|i: int| 1 <= i < bytes.len() ==> continuation_ok_spec(bytes[0], i as nat, #[trigger] bytes[i])
}

/// The code point that a complete sequence encodes.
pub open spec fn code_point(bytes: Seq<u8>) -> u32 {
    let w = utf8_width_spec(bytes[0]);
    if w == 1 {
        bytes[0] as u32
    } else if w == 2 {
        ((bytes[0] & 0x1f) as u32) << 6 | ((bytes[1] & 0x3f) as u32)
    } else if w == 3 {
        ((bytes[0] & 0x0f) as u32) << 12 | ((bytes[1] & 0x3f) as u32) << 6 | ((bytes[2] & 0x3f) as u32)
    } else {
        ((bytes[0] & 0x07) as u32) << 18 | ((bytes[1] & 0x3f) as u32) << 12 | ((bytes[2] & 0x3f) as u32) << 6
            | ((bytes[3] & 0x3f) as u32)
    }
}

/// What reading a character does next, given the bytes of it read so far
/// and the next byte of the stream (`None` at its end).
#[derive(Debug, Clone, Copy, PartialEq, Eq, Structural)]
pub enum Utf8Step {
    /// Take the next byte as part of the character.
    Consume,
    /// The character is complete.
    Char(char),
    /// The bytes are not UTF-8; the next byte is left unread.
    Invalid,
    /// The stream ends inside the character after this many bytes.
    Incomplete(u8),
}

/// The step that follows the bytes `read` of a character, with `next` the
/// next byte of the stream.
pub open spec fn step_spec(read: Seq<u8>, next: Option<u8>) -> Option<Utf8Step> {
    let w = utf8_width_spec(read[0]);
    if w == 0 {
        Some(Utf8Step::Invalid)
    } else if read.len() >= w {
        None
    } else {
        match next {
            None => Some(Utf8Step::Incomplete(read.len() as u8)),
            Some(b) => if continuation_ok_spec(read[0], read.len(), b) {
                Some(Utf8Step::Consume)
            } else {
                Some(Utf8Step::Invalid)
            },
        }
    }
}

/// The character whose code point is `n`.
///
/// Calls std's `char::from_u32`, which std documents as giving the
/// character exactly when `n` is a Unicode scalar value.
#[verifier::external_body]
fn char_of_scalar(n: u32) -> (c: char)
    requires
        is_scalar(n),
    ensures
        c as u32 == n,
{
    char::from_u32(n).unwrap()
}

proof fn lemma_code_point_scalar(bytes: Seq<u8>)
    requires
        accepted_prefix(bytes),
        bytes.len() == utf8_width_spec(bytes[0]),
    ensures
        is_scalar(code_point(bytes)),
{
    let b0 = bytes[0];
    let w = utf8_width_spec(b0);
    if w == 1 {
        assert(is_scalar(code_point(bytes)));
    } else if w == 2 {
        let b1 = bytes[1];
        assert(continuation_ok_spec(b0, 1, b1));
        let v = ((b0 & 0x1f) as u32) << 6 | ((b1 & 0x3f) as u32);
        assert(0x80 <= v <= 0x7ff) by (bit_vector)
            requires
                0xc2 <= b0 <= 0xdf,
                0x80 <= b1 <= 0xbf,
                v == ((b0 & 0x1f) as u32) << 6 | ((b1 & 0x3f) as u32),
        ;
    } else if w == 3 {
        let b1 = bytes[1];
        let b2 = bytes[2];
        assert(continuation_ok_spec(b0, 1, b1));
        assert(continuation_ok_spec(b0, 2, b2));
        let v = ((b0 & 0x0f) as u32) << 12 | ((b1 & 0x3f) as u32) << 6 | ((b2 & 0x3f) as u32);
        assert(0x800 <= v <= 0xffff && !(0xd800 <= v <= 0xdfff)) by (bit_vector)
            requires
                0xe0 <= b0 <= 0xef,
                b0 == 0xe0 ==> 0xa0 <= b1 <= 0xbf,
                b0 == 0xed ==> 0x80 <= b1 <= 0x9f,
                0x80 <= b1 <= 0xbf,
                0x80 <= b2 <= 0xbf,
                v == ((b0 & 0x0f) as u32) << 12 | ((b1 & 0x3f) as u32) << 6 | ((b2 & 0x3f) as u32),
        ;
    } else {
        let b1 = bytes[1];
        let b2 = bytes[2];
        let b3 = bytes[3];
        assert(continuation_ok_spec(b0, 1, b1));
        assert(continuation_ok_spec(b0, 2, b2));
        assert(continuation_ok_spec(b0, 3, b3));
        let v = ((b0 & 0x07) as u32) << 18 | ((b1 & 0x3f) as u32) << 12 | ((b2 & 0x3f) as u32) << 6
            | ((b3 & 0x3f) as u32);
        assert(0x10000 <= v <= 0x10ffff) by (bit_vector)
            requires
                0xf0 <= b0 <= 0xf4,
                b0 == 0xf0 ==> 0x90 <= b1 <= 0xbf,
                b0 == 0xf4 ==> 0x80 <= b1 <= 0x8f,
                0x80 <= b1 <= 0xbf,
                0x80 <= b2 <= 0xbf,
                0x80 <= b3 <= 0xbf,
                v == ((b0 & 0x07) as u32) << 18 | ((b1 & 0x3f) as u32) << 12 | ((b2 & 0x3f) as u32)
                    << 6 | ((b3 & 0x3f) as u32),
        ;
    }
}

/// The character that a complete, well-formed sequence encodes.
pub fn decode_char(bytes: &[u8]) -> (c: char)
    requires
        accepted_prefix(bytes@),
        bytes@.len() == utf8_width_spec(bytes@[0]),
    ensures
        c as u32 == code_point(bytes@),
        is_scalar(code_point(bytes@)),
{
    proof {
        lemma_code_point_scalar(bytes@);
    }
    let w = utf8_char_width(bytes[0]);
    let n: u32 = if w == 1 {
        bytes[0] as u32
    } else if w == 2 {
        ((bytes[0] & 0x1f) as u32) << 6 | ((bytes[1] & 0x3f) as u32)
    } else if w == 3 {
        ((bytes[0] & 0x0f) as u32) << 12 | ((bytes[1] & 0x3f) as u32) << 6 | ((bytes[2] & 0x3f) as u32)
    } else {
        ((bytes[0] & 0x07) as u32) << 18 | ((bytes[1] & 0x3f) as u32) << 12 | ((bytes[2] & 0x3f) as u32)
            << 6 | ((bytes[3] & 0x3f) as u32)
    };
    char_of_scalar(n)
}

/// What to do after reading the bytes `read` of a character, with `next`
/// the next byte of the stream: take it, or finish with a character or an
/// error.
pub fn decode_step(read: &[u8], next: Option<u8>) -> (r: Utf8Step)
    requires
        accepted_prefix(read@) || (read@.len() == 1 && utf8_width_spec(read@[0]) == 0),
    ensures
        step_spec(read@, next) matches Some(s) ==> r == s,
        step_spec(read@, next) is None ==> (r matches Utf8Step::Char(c) && c as u32 == code_point(read@)),
{
    let w = utf8_char_width(read[0]);
    if w == 0 {
        Utf8Step::Invalid
    } else if read.len() >= w {
        Utf8Step::Char(decode_char(read))
    } else {
        match next {
            None => Utf8Step::Incomplete(read.len() as u8),
            Some(b) => if continuation_ok(read[0], read.len(), b) {
                Utf8Step::Consume
            } else {
                Utf8Step::Invalid
            },
        }
    }
}

/// The UTF-8 encoding of a character.
pub fn encode_char(c: char) -> (r: Vec<u8>)
    ensures
        r@ == encode_scalar(c as u32),
{
    proof {
        vstd::utf8::char_is_scalar(c);
    }
    let n = c as u32;
    if n <= 0x7f {
        vec![(n & 0x7f) as u8]
    } else if n <= 0x7ff {
        vec![0xc0 | ((n >> 6) & 0x1f) as u8, 0x80 | (n & 0x3f) as u8]
    } else if n <= 0xffff {
        vec![0xe0 | ((n >> 12) & 0x0f) as u8, 0x80 | ((n >> 6) & 0x3f) as u8, 0x80 | (n & 0x3f) as u8]
    } else {
        vec![
            0xf0 | ((n >> 18) & 0x7) as u8,
            0x80 | ((n >> 12) & 0x3f) as u8,
            0x80 | ((n >> 6) & 0x3f) as u8,
            0x80 | (n & 0x3f) as u8,
        ]
    }
}

/// Decoding undoes encoding: the UTF-8 encoding of a character is a
/// complete, well-formed sequence whose code point is that character.
pub proof fn decode_undoes_encode(c: char)
    ensures
        accepted_prefix(encode_scalar(c as u32)),
        encode_scalar(c as u32).len() == utf8_width_spec(encode_scalar(c as u32)[0]),
        code_point(encode_scalar(c as u32)) == c as u32,
{
    vstd::utf8::char_is_scalar(c);
    let s = c as u32;
    let e = encode_scalar(s);
    if has_width_1_encoding(s) {
        let b0 = e[0];
        assert(b0 == (s & 0x7f) as u8);
        assert(b0 <= 0x7f && b0 as u32 == s) by (bit_vector)
            requires
                s <= 0x7f,
                b0 == (s & 0x7f) as u8,
        ;
    } else if has_width_2_encoding(s) {
        let b0 = e[0];
        let b1 = e[1];
        assert(0xc2 <= b0 <= 0xdf && 0x80 <= b1 <= 0xbf && (((b0 & 0x1f) as u32) << 6 | ((b1
            & 0x3f) as u32)) == s) by (bit_vector)
            requires
                0x80 <= s <= 0x7ff,
                b0 == 0xc0 | ((s >> 6) & 0x1f) as u8,
                b1 == 0x80 | (s & 0x3f) as u8,
        ;
    } else if has_width_3_encoding(s) {
        let b0 = e[0];
        let b1 = e[1];
        let b2 = e[2];
        assert(0xe0 <= b0 <= 0xef && 0x80 <= b1 <= 0xbf && 0x80 <= b2 <= 0xbf && (b0 == 0xe0
            ==> 0xa0 <= b1) && (b0 == 0xed ==> b1 <= 0x9f) && (((b0 & 0x0f) as u32) << 12 | ((b1
            & 0x3f) as u32) << 6 | ((b2 & 0x3f) as u32)) == s) by (bit_vector)
            requires
                0x800 <= s <= 0xffff,
                !(0xd800 <= s <= 0xdfff),
                b0 == 0xe0 | ((s >> 12) & 0x0f) as u8,
                b1 == 0x80 | ((s >> 6) & 0x3f) as u8,
                b2 == 0x80 | (s & 0x3f) as u8,
        ;
    } else {
        assert(has_width_4_encoding(s));
        let b0 = e[0];
        let b1 = e[1];
        let b2 = e[2];
        let b3 = e[3];
        assert(0xf0 <= b0 <= 0xf4 && 0x80 <= b1 <= 0xbf && 0x80 <= b2 <= 0xbf && 0x80 <= b3
            <= 0xbf && (b0 == 0xf0 ==> 0x90 <= b1) && (b0 == 0xf4 ==> b1 <= 0x8f) && (((b0
            & 0x07) as u32) << 18 | ((b1 & 0x3f) as u32) << 12 | ((b2 & 0x3f) as u32) << 6 | ((b3
            & 0x3f) as u32)) == s) by (bit_vector)
            requires
                0x10000 <= s <= 0x10ffff,
                b0 == 0xf0 | ((s >> 18) & 0x7) as u8,
                b1 == 0x80 | ((s >> 12) & 0x3f) as u8,
                b2 == 0x80 | ((s >> 6) & 0x3f) as u8,
                b3 == 0x80 | (s & 0x3f) as u8,
        ;
    }
}

/// Encoding undoes decoding: a complete, well-formed sequence is the UTF-8
/// encoding of the code point it decodes to.
pub proof fn encode_undoes_decode(bytes: Seq<u8>)
    requires
        accepted_prefix(bytes),
        bytes.len() == utf8_width_spec(bytes[0]),
    ensures
        is_scalar(code_point(bytes)),
        encode_scalar(code_point(bytes)) == bytes,
{
    lemma_code_point_scalar(bytes);
    let b0 = bytes[0];
    let w = utf8_width_spec(b0);
    let s = code_point(bytes);
    if w == 1 {
        assert((s & 0x7f) as u8 == b0) by (bit_vector)
            requires
                b0 <= 0x7f,
                s == b0 as u32,
        ;
        assert(encode_scalar(s) == seq![b0]);
        assert(bytes == seq![b0]);
    } else if w == 2 {
        let b1 = bytes[1];
        assert(continuation_ok_spec(b0, 1, b1));
        assert(0xc0 | ((s >> 6) & 0x1f) as u8 == b0 && 0x80 | (s & 0x3f) as u8 == b1 && 0x80 <= s
            <= 0x7ff) by (bit_vector)
            requires
                0xc2 <= b0 <= 0xdf,
                0x80 <= b1 <= 0xbf,
                s == ((b0 & 0x1f) as u32) << 6 | ((b1 & 0x3f) as u32),
        ;
        assert(bytes == seq![b0, b1]);
    } else if w == 3 {
        let b1 = bytes[1];
        let b2 = bytes[2];
        assert(continuation_ok_spec(b0, 1, b1));
        assert(continuation_ok_spec(b0, 2, b2));
        assert(0xe0 | ((s >> 12) & 0x0f) as u8 == b0 && 0x80 | ((s >> 6) & 0x3f) as u8 == b1 && 0x80
            | (s & 0x3f) as u8 == b2 && 0x800 <= s <= 0xffff) by (bit_vector)
            requires
                0xe0 <= b0 <= 0xef,
                b0 == 0xe0 ==> 0xa0 <= b1 <= 0xbf,
                0x80 <= b1 <= 0xbf,
                0x80 <= b2 <= 0xbf,
                s == ((b0 & 0x0f) as u32) << 12 | ((b1 & 0x3f) as u32) << 6 | ((b2 & 0x3f) as u32),
        ;
        assert(bytes == seq![b0, b1, b2]);
    } else {
        let b1 = bytes[1];
        let b2 = bytes[2];
        let b3 = bytes[3];
        assert(continuation_ok_spec(b0, 1, b1));
        assert(continuation_ok_spec(b0, 2, b2));
        assert(continuation_ok_spec(b0, 3, b3));
        assert(0xf0 | ((s >> 18) & 0x7) as u8 == b0 && 0x80 | ((s >> 12) & 0x3f) as u8 == b1 && 0x80
            | ((s >> 6) & 0x3f) as u8 == b2 && 0x80 | (s & 0x3f) as u8 == b3 && 0x10000 <= s)
            by (bit_vector)
            requires
                0xf0 <= b0 <= 0xf4,
                b0 == 0xf0 ==> 0x90 <= b1 <= 0xbf,
                0x80 <= b1 <= 0xbf,
                0x80 <= b2 <= 0xbf,
                0x80 <= b3 <= 0xbf,
                s == ((b0 & 0x07) as u32) << 18 | ((b1 & 0x3f) as u32) << 12 | ((b2 & 0x3f) as u32)
                    << 6 | ((b3 & 0x3f) as u32),
        ;
        assert(bytes == seq![b0, b1, b2, b3]);
    }
}

} // verus!
