use cairs::text::{
    chars_of, contains_chars, ends_with_chars, find_char, is_whitespace_char,
    occurs_at_chars, push_decimal, push_signed_decimal, rfind_char, same_chars, same_text,
    split_chars, starts_with_chars, trim_chars,
};

fn chars(s: &str) -> Vec<char> {
    s.chars().collect()
}

#[test]
fn chars_of_gives_the_characters_in_order() {
    assert_eq!(chars_of("héllo"), vec!['h', 'é', 'l', 'l', 'o']);
    assert!(chars_of("").is_empty());
}

#[test]
fn prefix_suffix_and_substring_agree_with_the_standard_library() {
    let samples = ["", "a", "ab", "abc", "abcabc", "xabcx", "ééa", "a*b", "ab*"];
    for s in samples {
        for p in samples {
            assert_eq!(starts_with_chars(&chars(s), &chars(p)), s.starts_with(p), "{:?} {:?}", s, p);
            assert_eq!(ends_with_chars(&chars(s), &chars(p)), s.ends_with(p), "{:?} {:?}", s, p);
            assert_eq!(contains_chars(&chars(s), &chars(p)), s.contains(p), "{:?} {:?}", s, p);
            assert_eq!(same_chars(&chars(s), &chars(p)), s == p, "{:?} {:?}", s, p);
            assert_eq!(same_text(s, p), s == p, "{:?} {:?}", s, p);
        }
    }
}

#[test]
fn occurrence_is_checked_at_the_given_position() {
    let s = chars("abcabc");
    assert!(occurs_at_chars(&s, &chars("bc"), 1));
    assert!(occurs_at_chars(&s, &chars("bc"), 4));
    assert!(!occurs_at_chars(&s, &chars("bc"), 2));
    assert!(!occurs_at_chars(&s, &chars("bc"), 5));
    assert!(!occurs_at_chars(&s, &chars("bc"), usize::MAX));
    assert!(occurs_at_chars(&s, &[], 6));
    assert!(!occurs_at_chars(&s, &[], 7));
}

#[test]
fn first_and_last_index_of_a_character() {
    let s = chars("a{b{c}d}e");
    assert_eq!(find_char(&s, '{'), Some(1));
    assert_eq!(rfind_char(&s, '{'), Some(3));
    assert_eq!(find_char(&s, '}'), Some(5));
    assert_eq!(rfind_char(&s, '}'), Some(7));
    assert_eq!(find_char(&s, 'x'), None);
    assert_eq!(rfind_char(&s, 'x'), None);
    assert_eq!(find_char(&[], 'a'), None);
    assert_eq!(rfind_char(&[], 'a'), None);
}

#[test]
fn white_space_is_what_the_standard_library_calls_white_space() {
    for code in 0u32..0x11_0000 {
        if let Some(c) = char::from_u32(code) {
            assert_eq!(is_whitespace_char(c), c.is_whitespace(), "U+{:04X}", code);
        }
    }
}

#[test]
fn trimming_agrees_with_the_standard_library() {
    for s in ["", " ", "  a  ", "a", "\t a b \n", "\u{3000}x\u{a0}", "a \u{2003}", "   ", " a ", "ab c"] {
        assert_eq!(trim_chars(&chars(s)), chars(s.trim()), "{:?}", s);
    }
}

#[test]
fn splitting_agrees_with_the_standard_library() {
    for s in ["", ",", "a", "a,b", "a,,b", ",a", "a,", ",,", "a, b ,c", "é,ü"] {
        let expected: Vec<Vec<char>> = s.split(',').map(chars).collect();
        assert_eq!(split_chars(&chars(s), ','), expected, "{:?}", s);
    }
}

#[test]
fn decimal_numerals_are_appended() {
    for n in [0u64, 1, 9, 10, 11, 99, 100, 101, 1000, 12345678901234567890, u64::MAX] {
        let mut out = String::from("n=");
        push_decimal(&mut out, n);
        assert_eq!(out, format!("n={}", n));
    }
}

#[test]
fn signed_decimal_numerals_are_appended() {
    for i in [0i64, 1, -1, 10, -10, 42, -42, i64::MAX, i64::MIN, i64::MIN + 1] {
        let mut out = String::from("i=");
        push_signed_decimal(&mut out, i);
        assert_eq!(out, format!("i={}", i));
    }
}
