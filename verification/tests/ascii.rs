use ari::str::ascii::{byte_in_class, AsciiClass, AsciiExt};

#[test]
fn bytes_agree_with_the_standard_library() {
    for b in 0..=255u8 {
        assert_eq!(AsciiExt::is_ascii(&b), b.is_ascii(), "{}", b);
        assert_eq!(AsciiExt::to_ascii_uppercase(&b), b.to_ascii_uppercase(), "{}", b);
        assert_eq!(AsciiExt::to_ascii_lowercase(&b), b.to_ascii_lowercase(), "{}", b);
        assert_eq!(AsciiExt::is_ascii_alphabetic(&b), b.is_ascii_alphabetic(), "{}", b);
        assert_eq!(AsciiExt::is_ascii_uppercase(&b), b.is_ascii_uppercase(), "{}", b);
        assert_eq!(AsciiExt::is_ascii_lowercase(&b), b.is_ascii_lowercase(), "{}", b);
        assert_eq!(AsciiExt::is_ascii_alphanumeric(&b), b.is_ascii_alphanumeric(), "{}", b);
        assert_eq!(AsciiExt::is_ascii_digit(&b), b.is_ascii_digit(), "{}", b);
        assert_eq!(AsciiExt::is_ascii_hexdigit(&b), b.is_ascii_hexdigit(), "{}", b);
        assert_eq!(AsciiExt::is_ascii_punctuation(&b), b.is_ascii_punctuation(), "{}", b);
        assert_eq!(AsciiExt::is_ascii_graphic(&b), b.is_ascii_graphic(), "{}", b);
        assert_eq!(AsciiExt::is_ascii_whitespace(&b), b.is_ascii_whitespace(), "{}", b);
        assert_eq!(AsciiExt::is_ascii_control(&b), b.is_ascii_control(), "{}", b);
        let mut up = b;
        AsciiExt::make_ascii_uppercase(&mut up);
        assert_eq!(up, b.to_ascii_uppercase());
        let mut low = b;
        AsciiExt::make_ascii_lowercase(&mut low);
        assert_eq!(low, b.to_ascii_lowercase());
        for other in [b'a', b'A', b'z', b'Z', b'@', b'[', b'`', b'{', 0xe9, b] {
            assert_eq!(AsciiExt::eq_ignore_ascii_case(&b, &other), b.eq_ignore_ascii_case(&other));
        }
    }
}

#[test]
fn characters_agree_with_the_standard_library() {
    let samples: Vec<char> = (0..300u32)
        .filter_map(char::from_u32)
        .chain(['é', 'É', '日', '𝄞', '\u{ff21}', '\u{ff41}', '\u{10ffff}', '\u{131}', '\u{212a}'])
        .collect();
    for c in samples {
        assert_eq!(AsciiExt::is_ascii(&c), c.is_ascii(), "{:?}", c);
        assert_eq!(AsciiExt::to_ascii_uppercase(&c), c.to_ascii_uppercase(), "{:?}", c);
        assert_eq!(AsciiExt::to_ascii_lowercase(&c), c.to_ascii_lowercase(), "{:?}", c);
        assert_eq!(AsciiExt::is_ascii_alphabetic(&c), c.is_ascii_alphabetic(), "{:?}", c);
        assert_eq!(AsciiExt::is_ascii_uppercase(&c), c.is_ascii_uppercase(), "{:?}", c);
        assert_eq!(AsciiExt::is_ascii_lowercase(&c), c.is_ascii_lowercase(), "{:?}", c);
        assert_eq!(AsciiExt::is_ascii_alphanumeric(&c), c.is_ascii_alphanumeric(), "{:?}", c);
        assert_eq!(AsciiExt::is_ascii_digit(&c), c.is_ascii_digit(), "{:?}", c);
        assert_eq!(AsciiExt::is_ascii_hexdigit(&c), c.is_ascii_hexdigit(), "{:?}", c);
        assert_eq!(AsciiExt::is_ascii_punctuation(&c), c.is_ascii_punctuation(), "{:?}", c);
        assert_eq!(AsciiExt::is_ascii_graphic(&c), c.is_ascii_graphic(), "{:?}", c);
        assert_eq!(AsciiExt::is_ascii_whitespace(&c), c.is_ascii_whitespace(), "{:?}", c);
        assert_eq!(AsciiExt::is_ascii_control(&c), c.is_ascii_control(), "{:?}", c);
        let mut up = c;
        AsciiExt::make_ascii_uppercase(&mut up);
        assert_eq!(up, c.to_ascii_uppercase());
        let mut low = c;
        AsciiExt::make_ascii_lowercase(&mut low);
        assert_eq!(low, c.to_ascii_lowercase());
        for other in ['a', 'A', 'k', 'K', '\u{212a}', 'é', 'É', c] {
            assert_eq!(AsciiExt::eq_ignore_ascii_case(&c, &other), c.eq_ignore_ascii_case(&other));
        }
    }
}

#[test]
fn text_changes_case_in_its_ascii_letters_only() {
    assert_eq!(AsciiExt::to_ascii_uppercase("cafe\u{301}"), "CAFE\u{301}");
    assert_eq!(AsciiExt::to_ascii_uppercase("caf\u{e9}"), "CAF\u{e9}");
    assert_eq!(AsciiExt::to_ascii_lowercase("HeLLo, Wörld 123"), "hello, wörld 123");
    assert_eq!(AsciiExt::to_ascii_uppercase("HeLLo, Wörld 123"), "HELLO, WöRLD 123");
    assert_eq!(AsciiExt::to_ascii_uppercase(""), "");
}

#[test]
fn text_changes_case_in_place() {
    let mut text = String::from("Grüße, Jürgen");
    AsciiExt::make_ascii_uppercase(text.as_mut_str());
    assert_eq!(text, "GRüßE, JüRGEN");
    AsciiExt::make_ascii_lowercase(text.as_mut_str());
    assert_eq!(text, "grüße, jürgen");
}

#[test]
fn text_is_compared_without_case() {
    assert!(AsciiExt::eq_ignore_ascii_case("Ferris", "FERRIS"));
    assert!(AsciiExt::eq_ignore_ascii_case("Ferrös", "FERRöS"));
    assert!(!AsciiExt::eq_ignore_ascii_case("Ferrös", "FERRÖS"));
    assert!(!AsciiExt::eq_ignore_ascii_case("Ferris", "Ferri"));
    assert!(AsciiExt::eq_ignore_ascii_case("", ""));
}

#[test]
fn text_is_ascii() {
    assert!(AsciiExt::is_ascii("hello!\n"));
    assert!(AsciiExt::is_ascii(""));
    assert!(!AsciiExt::is_ascii("Grüße"));
}

#[test]
fn text_classes_hold_of_every_byte() {
    assert!(AsciiExt::is_ascii_alphabetic("abcXYZ"));
    assert!(!AsciiExt::is_ascii_alphabetic("abc1"));
    assert!(!AsciiExt::is_ascii_alphabetic("abcé"));
    assert!(AsciiExt::is_ascii_alphabetic(""));
    assert!(AsciiExt::is_ascii_uppercase("ABC"));
    assert!(!AsciiExt::is_ascii_uppercase("ABc"));
    assert!(AsciiExt::is_ascii_lowercase("abc"));
    assert!(!AsciiExt::is_ascii_lowercase("aBc"));
    assert!(AsciiExt::is_ascii_alphanumeric("abc123XYZ"));
    assert!(!AsciiExt::is_ascii_alphanumeric("abc 123"));
    assert!(AsciiExt::is_ascii_digit("0123456789"));
    assert!(!AsciiExt::is_ascii_digit("12a"));
    assert!(AsciiExt::is_ascii_hexdigit("09afAF"));
    assert!(!AsciiExt::is_ascii_hexdigit("09afAG"));
    assert!(AsciiExt::is_ascii_punctuation("!\"#$%&'()*+,-./:;<=>?@[\\]^_`{|}~"));
    assert!(!AsciiExt::is_ascii_punctuation("!a"));
    assert!(AsciiExt::is_ascii_graphic("a!~"));
    assert!(!AsciiExt::is_ascii_graphic("a b"));
    assert!(AsciiExt::is_ascii_whitespace(" \t\n\x0c\r"));
    assert!(!AsciiExt::is_ascii_whitespace(" \x0b"));
    assert!(AsciiExt::is_ascii_control("\x00\x1f\x7f"));
    assert!(!AsciiExt::is_ascii_control("\x00 "));
}

#[test]
fn byte_slices_follow_their_bytes() {
    let bytes: &[u8] = b"Hello, \xe9 World";
    assert_eq!(AsciiExt::to_ascii_uppercase(bytes), b"HELLO, \xe9 WORLD".to_vec());
    assert_eq!(AsciiExt::to_ascii_lowercase(bytes), b"hello, \xe9 world".to_vec());
    assert!(!AsciiExt::is_ascii(bytes));
    assert!(AsciiExt::is_ascii(&b"Hello"[..]));
    assert!(AsciiExt::eq_ignore_ascii_case(bytes, &b"hELLO, \xe9 wORLD"[..]));
    assert!(!AsciiExt::eq_ignore_ascii_case(bytes, &b"hELLO, \xc9 wORLD"[..]));
    assert!(!AsciiExt::eq_ignore_ascii_case(bytes, &b"hello"[..]));
    let mut owned = bytes.to_vec();
    AsciiExt::make_ascii_uppercase(owned.as_mut_slice());
    assert_eq!(owned, b"HELLO, \xe9 WORLD".to_vec());
    AsciiExt::make_ascii_lowercase(owned.as_mut_slice());
    assert_eq!(owned, b"hello, \xe9 world".to_vec());
    assert!(AsciiExt::is_ascii_alphabetic(&b"abc"[..]));
    assert!(!AsciiExt::is_ascii_alphabetic(&b"ab1"[..]));
    assert!(AsciiExt::is_ascii_uppercase(&b"ABC"[..]));
    assert!(AsciiExt::is_ascii_lowercase(&b"abc"[..]));
    assert!(AsciiExt::is_ascii_alphanumeric(&b"a1"[..]));
    assert!(AsciiExt::is_ascii_digit(&b"123"[..]));
    assert!(AsciiExt::is_ascii_hexdigit(&b"1aF"[..]));
    assert!(AsciiExt::is_ascii_punctuation(&b"?!"[..]));
    assert!(AsciiExt::is_ascii_graphic(&b"a?"[..]));
    assert!(AsciiExt::is_ascii_whitespace(&b" \n"[..]));
    assert!(AsciiExt::is_ascii_control(&b"\x01"[..]));
    assert!(!AsciiExt::is_ascii_control(&b"a"[..]));
    assert!(AsciiExt::is_ascii_control(&b""[..]));
}

#[test]
fn classes_of_single_bytes() {
    assert!(byte_in_class(AsciiClass::Whitespace, 0x0c));
    assert!(!byte_in_class(AsciiClass::Whitespace, 0x0b));
    assert!(byte_in_class(AsciiClass::Control, 0x7f));
    assert!(!byte_in_class(AsciiClass::Graphic, 0x7f));
    assert!(!byte_in_class(AsciiClass::Graphic, b' '));
    assert!(byte_in_class(AsciiClass::Hexdigit, b'f'));
    assert!(!byte_in_class(AsciiClass::Hexdigit, b'g'));
}
