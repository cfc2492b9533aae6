use alacritty::io::{
    continuation_ok, decode_char, decode_step, encode_char, utf8_char_width, Utf8Chars, Utf8Step,
};

#[test]
fn char_widths() {
    assert_eq!(utf8_char_width(b'a'), 1);
    assert_eq!(utf8_char_width(0x80), 0);
    assert_eq!(utf8_char_width(0xc1), 0);
    assert_eq!(utf8_char_width(0xc2), 2);
    assert_eq!(utf8_char_width(0xe2), 3);
    assert_eq!(utf8_char_width(0xf4), 4);
    assert_eq!(utf8_char_width(0xf5), 0);
}

#[test]
fn continuation_ranges() {
    assert!(!continuation_ok(0xe0, 1, 0x9f));
    assert!(continuation_ok(0xe0, 1, 0xa0));
    assert!(!continuation_ok(0xed, 1, 0xa0));
    assert!(!continuation_ok(0xf4, 1, 0x90));
    assert!(continuation_ok(0xf4, 2, 0xbf));
}

#[test]
fn decodes_and_encodes() {
    for c in ['a', 'é', '€', '😀', '\u{10ffff}'] {
        let bytes = encode_char(c);
        assert_eq!(bytes, c.to_string().into_bytes());
        assert_eq!(decode_char(&bytes), c);
    }
}

#[test]
fn decoding_steps() {
    assert_eq!(decode_step(&[0xe2], Some(0x82)), Utf8Step::Consume);
    assert_eq!(decode_step(&[0xe2, 0x82], None), Utf8Step::Incomplete(2));
    assert_eq!(decode_step(&[0xe2, 0x82, 0xac], None), Utf8Step::Char('€'));
    assert_eq!(decode_step(&[0xe2], Some(0x41)), Utf8Step::Invalid);
    assert_eq!(decode_step(&[0xff], Some(0x41)), Utf8Step::Invalid);
    assert_eq!(decode_step(&[b'x'], Some(0x80)), Utf8Step::Char('x'));
    let chars = Utf8Chars::new(&b"ab"[..]);
    assert_eq!(chars.inner, &b"ab"[..]);
}
