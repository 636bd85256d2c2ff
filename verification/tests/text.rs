use ace_bot::text::{
    chars_of, decimal_string, push_decimal, push_range, push_signed_decimal, skip_spaces, space,
    starts_with, trimmed,
};

#[test]
fn decimal_of_zero_is_one_digit() {
    assert_eq!(decimal_string(0), "0");
}

#[test]
fn decimal_of_small_numbers() {
    assert_eq!(decimal_string(7), "7");
    assert_eq!(decimal_string(10), "10");
    assert_eq!(decimal_string(60), "60");
    assert_eq!(decimal_string(1048576), "1048576");
}

#[test]
fn decimal_of_the_largest_number() {
    assert_eq!(decimal_string(u64::MAX), "18446744073709551615");
}

#[test]
fn decimal_is_appended_to_what_is_there() {
    let mut s = String::from("n=");
    push_decimal(&mut s, 405);
    assert_eq!(s, "n=405");
}

#[test]
fn signed_decimal_has_a_minus_sign() {
    let mut s = String::new();
    push_signed_decimal(&mut s, -1);
    assert_eq!(s, "-1");
    let mut s = String::new();
    push_signed_decimal(&mut s, 137);
    assert_eq!(s, "137");
    let mut s = String::new();
    push_signed_decimal(&mut s, 0);
    assert_eq!(s, "0");
}

#[test]
fn signed_decimal_of_the_least_number() {
    let mut s = String::new();
    push_signed_decimal(&mut s, i64::MIN);
    assert_eq!(s, "-9223372036854775808");
    let mut s = String::new();
    push_signed_decimal(&mut s, i64::MAX);
    assert_eq!(s, "9223372036854775807");
}

#[test]
fn characters_round_trip() {
    let v = chars_of("a—b\n");
    assert_eq!(v, vec!['a', '\u{2014}', 'b', '\n']);
    let mut s = String::new();
    push_range(&mut s, &v, 0, v.len());
    assert_eq!(s, "a—b\n");
    assert_eq!(chars_of(""), Vec::<char>::new());
}

#[test]
fn range_is_appended() {
    let v = chars_of("hello");
    let mut s = String::from(">");
    push_range(&mut s, &v, 1, 4);
    assert_eq!(s, ">ell");
    push_range(&mut s, &v, 2, 2);
    assert_eq!(s, ">ell");
}

#[test]
fn white_space_is_what_unicode_says() {
    for c in [' ', '\t', '\n', '\r', '\u{0B}', '\u{0C}', '\u{85}', '\u{A0}', '\u{1680}', '\u{2000}', '\u{200A}', '\u{2028}', '\u{2029}', '\u{202F}', '\u{205F}', '\u{3000}'] {
        assert!(space(c));
    }
    for c in ['a', '0', '-', '\u{200B}', '\u{180E}', '\u{FEFF}', '\u{08}', '\u{0E}'] {
        assert!(!space(c));
    }
}

#[test]
fn white_space_agrees_with_the_standard_library() {
    let mut n: u32 = 0;
    while n <= 0x3100 {
        if let Some(c) = char::from_u32(n) {
            assert_eq!(space(c), c.is_whitespace());
        }
        n += 1;
    }
}

#[test]
fn trimming_removes_both_ends_only() {
    assert_eq!(trimmed("  echo hi \n"), "echo hi");
    assert_eq!(trimmed("echo  hi"), "echo  hi");
    assert_eq!(trimmed("\u{3000}x\u{A0}"), "x");
    assert_eq!(trimmed(""), "");
    assert_eq!(trimmed(" \n\t "), "");
    assert_eq!(trimmed("a"), "a");
}

#[test]
fn trimming_agrees_with_the_standard_library() {
    for s in ["", " ", "a", " a", "a ", " a b ", "\n\nx\ty\r\n", "\u{2003}wide\u{2003}", "—"] {
        assert_eq!(trimmed(s), s.trim());
    }
}

#[test]
fn spaces_are_skipped_from_an_index() {
    let v = chars_of("ab  cd");
    assert_eq!(skip_spaces(&v, 2), 4);
    assert_eq!(skip_spaces(&v, 0), 0);
    assert_eq!(skip_spaces(&v, 6), 6);
    let w = chars_of("x   ");
    assert_eq!(skip_spaces(&w, 1), 4);
}

#[test]
fn prefixes_are_recognised() {
    let s = chars_of("/home/user");
    assert!(starts_with(&s, &chars_of("/home")));
    assert!(starts_with(&s, &chars_of("")));
    assert!(starts_with(&s, &chars_of("/home/user")));
    assert!(!starts_with(&s, &chars_of("/home/user/")));
    assert!(!starts_with(&s, &chars_of("/hame")));
}
