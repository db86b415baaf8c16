use thrush::util::{
    bytes_eq, c_string, first_nul, from_str, has_nul, lossy_string, push_decimal, push_digits,
    try_from_str,
};

#[test]
fn c_string_stops_at_the_terminator() {
    assert_eq!(c_string(b"abc\0def\0"), b"abc".to_vec());
    assert_eq!(c_string(b"abc"), b"abc".to_vec());
    assert_eq!(c_string(b"\0abc"), Vec::<u8>::new());
    assert_eq!(c_string(b""), Vec::<u8>::new());
}

#[test]
fn first_terminator_is_found() {
    assert_eq!(first_nul(b"abc"), None);
    assert_eq!(first_nul(b""), None);
    assert_eq!(first_nul(b"a\0b\0"), Some(1));
    assert_eq!(first_nul(b"\0"), Some(0));
}

#[test]
fn text_becomes_its_bytes() {
    assert_eq!(from_str("main"), b"main".to_vec());
    assert_eq!(from_str("\u{e9}"), vec![0xc3, 0xa9]);
    assert_eq!(try_from_str("main"), Ok(b"main".to_vec()));
    assert_eq!(try_from_str("ma\0in"), Err(2));
    assert_eq!(try_from_str("\u{e9}\0"), Err(2));
    assert!(has_nul("ma\0in"));
    assert!(!has_nul("main"));
    assert!(!has_nul(""));
}

#[test]
fn lossy_decoding_keeps_well_formed_text() {
    assert_eq!(lossy_string(b"hello\0ignored"), "hello");
    assert_eq!(lossy_string(&[0xc3, 0xa9, 0x21]), "\u{e9}!");
    assert_eq!(lossy_string(&[0x61, 0x80, 0x62, 0]), "a\u{fffd}b");
    assert_eq!(lossy_string(b""), "");
}

#[test]
fn byte_strings_compare_by_content() {
    assert!(bytes_eq(&b"abc".to_vec(), &b"abc".to_vec()));
    assert!(!bytes_eq(&b"abc".to_vec(), &b"abd".to_vec()));
    assert!(!bytes_eq(&b"abc".to_vec(), &b"ab".to_vec()));
    assert!(bytes_eq(&Vec::new(), &Vec::new()));
}

#[test]
fn integers_are_rendered_in_decimal() {
    let mut out = String::from("n=");
    push_digits(&mut out, 0);
    out.push(' ');
    push_digits(&mut out, 9);
    out.push(' ');
    push_digits(&mut out, 10);
    out.push(' ');
    push_digits(&mut out, 1234567890);
    out.push(' ');
    push_digits(&mut out, u64::MAX);
    assert_eq!(out, "n=0 9 10 1234567890 18446744073709551615");
    let mut out = String::new();
    push_decimal(&mut out, -1);
    out.push(' ');
    push_decimal(&mut out, 0);
    out.push(' ');
    push_decimal(&mut out, 305);
    out.push(' ');
    push_decimal(&mut out, i64::MIN);
    out.push(' ');
    push_decimal(&mut out, i64::MAX);
    assert_eq!(out, "-1 0 305 -9223372036854775808 9223372036854775807");
}
