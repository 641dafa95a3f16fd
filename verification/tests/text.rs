use ari::str::pad::{PadString, TextAlignment};
use ari::str::utf16::{
    from_utf16, from_utf16_lossy, from_utf16_lossy_null, from_utf16_null, to_utf16, to_utf16_null,
};

#[test]
fn pad_left_and_right() {
    assert_eq!("abc".pad_left(5), "  abc");
    assert_eq!("abc".pad_right(5), "abc  ");
    assert_eq!("abc".pad_left_with(6, '*'), "***abc");
    assert_eq!("abc".pad_right_with(6, '-'), "abc---");
    assert_eq!("abc".pad_to_width_with_alignment(4, TextAlignment::Left), "abc ");
    assert_eq!("abc".pad_to_width_with_alignment(4, TextAlignment::Right), " abc");
    assert_eq!("abc".pad(7, '.', TextAlignment::Left), "abc....");
    assert_eq!("abc".pad(7, '.', TextAlignment::Right), "....abc");
    assert_eq!("".pad_left(2), "  ");
}

#[test]
fn a_text_that_is_wide_enough_stays() {
    assert_eq!("abc".pad_left(3), "abc");
    assert_eq!("abc".pad_left(2), "abc");
    assert_eq!("abc".pad_right(0), "abc");
    assert_eq!("".pad_right(0), "");
}

#[test]
fn padding_counts_display_columns() {
    // each of these characters takes two columns
    assert_eq!("日本".pad_left(6), "  日本");
    assert_eq!("日本".pad_right(5), "日本 ");
    assert_eq!("日本".pad_right(4), "日本");
    // a combining accent takes none
    assert_eq!("e\u{301}".pad_right(3), "e\u{301}  ");
    assert_ne!("日本".pad_left(6), "    日本");
}

#[test]
fn to_utf16_of_plain_text() {
    assert_eq!(to_utf16(""), Vec::<u16>::new());
    assert_eq!(to_utf16("abc"), vec![0x61, 0x62, 0x63]);
    assert_eq!(to_utf16("é日"), vec![0xe9, 0x65e5]);
    assert_eq!(to_utf16("\u{ffff}"), vec![0xffff]);
}

#[test]
fn to_utf16_makes_surrogate_pairs() {
    assert_eq!(to_utf16("\u{10000}"), vec![0xd800, 0xdc00]);
    assert_eq!(to_utf16("a𝄞b"), vec![0x61, 0xd834, 0xdd1e, 0x62]);
    assert_eq!(to_utf16("\u{10ffff}"), vec![0xdbff, 0xdfff]);
}

#[test]
fn to_utf16_agrees_with_the_standard_encoding() {
    let text = "plain, accentué, 日本語, 𝄞𝄢, \u{d7ff}\u{e000}\u{ffff}\u{10000}\u{10ffff}";
    assert_eq!(to_utf16(text), text.encode_utf16().collect::<Vec<u16>>());
}

#[test]
fn to_utf16_null_ends_in_zero() {
    assert_eq!(to_utf16_null(""), vec![0]);
    assert_eq!(to_utf16_null("ab"), vec![0x61, 0x62, 0]);
    assert_eq!(to_utf16_null("𝄞"), vec![0xd834, 0xdd1e, 0]);
}

#[test]
fn from_utf16_reads_valid_data() {
    assert_eq!(from_utf16(&[]).unwrap(), "");
    assert_eq!(from_utf16(&[0x61, 0xd834, 0xdd1e, 0x62]).unwrap(), "a𝄞b");
    assert_eq!(from_utf16(&to_utf16("round trip, 日本語 𝄞")).unwrap(), "round trip, 日本語 𝄞");
    assert_eq!(from_utf16(&[0x61, 0, 0x62]).unwrap(), "a\0b");
}

#[test]
fn from_utf16_refuses_lone_surrogates() {
    assert!(from_utf16(&[0xd834]).is_err());
    assert!(from_utf16(&[0xdd1e]).is_err());
    assert!(from_utf16(&[0x61, 0xd834, 0x62]).is_err());
    assert!(from_utf16(&[0xdd1e, 0xd834]).is_err());
}

#[test]
fn from_utf16_null_stops_at_the_first_zero() {
    assert_eq!(from_utf16_null(&[0x61, 0x62, 0, 0x63]).unwrap(), "ab");
    assert_eq!(from_utf16_null(&[0x61, 0x62]).unwrap(), "ab");
    assert_eq!(from_utf16_null(&[0, 0x61]).unwrap(), "");
    assert_eq!(from_utf16_null(&[]).unwrap(), "");
    // what lies after the zero is not read
    assert_eq!(from_utf16_null(&[0x61, 0, 0xd834]).unwrap(), "a");
    assert!(from_utf16_null(&[0xd834, 0, 0x61]).is_err());
    assert_eq!(from_utf16_null(&to_utf16_null("text")).unwrap(), "text");
}

#[test]
fn lossy_reading_replaces_what_is_invalid() {
    assert_eq!(from_utf16_lossy(&[0x61, 0xd834, 0x62]), "a\u{fffd}b");
    assert_eq!(from_utf16_lossy(&[0x61, 0xd834, 0xdd1e, 0x62]), "a𝄞b");
    assert_eq!(from_utf16_lossy(&[]), "");
    assert_eq!(from_utf16_lossy_null(&[0x61, 0xdd1e, 0, 0x62]), "a\u{fffd}");
    assert_eq!(from_utf16_lossy_null(&[0x61, 0x62]), "ab");
    assert_eq!(from_utf16_lossy_null(&[0, 0xd834]), "");
}
