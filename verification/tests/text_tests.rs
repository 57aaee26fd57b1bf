use sentinel::text::{contains_text, decimal_text, opening_of, padded_text, same_text, to_chars};

#[test]
fn chars_of_a_text() {
    assert_eq!(to_chars("añ🛑"), vec!['a', 'ñ', '🛑']);
    assert_eq!(to_chars(""), Vec::<char>::new());
}

#[test]
fn same_text_compares_characters() {
    assert!(same_text("none", "none"));
    assert!(!same_text("none", "None"));
    assert!(!same_text("none", "none "));
    assert!(same_text("", ""));
}

#[test]
fn contains_text_finds_a_marker_anywhere() {
    assert!(contains_text("API_KEY=abc", "API_KEY="));
    assert!(contains_text("the key is API_KEY=abc", "API_KEY="));
    assert!(contains_text("the key is API_KEY=", "API_KEY="));
    assert!(!contains_text("the key is API_KEY", "API_KEY="));
    assert!(!contains_text("API_KE=Y", "API_KEY="));
    assert!(!contains_text("", "API_KEY="));
    assert!(!contains_text("short", "longer than the text"));
}

#[test]
fn contains_text_agrees_with_the_standard_library() {
    let texts = ["", "a", "ab", "aab", "abab", "ñandú", "xx🛑xx", "mississippi"];
    let patterns = ["", "a", "b", "ab", "ba", "ss", "ssip", "ñ", "🛑x", "ippi", "mississippix"];
    for t in texts {
        for p in patterns {
            assert_eq!(contains_text(t, p), t.contains(p), "{:?} in {:?}", p, t);
        }
    }
}

#[test]
fn the_empty_pattern_is_everywhere() {
    assert!(contains_text("", ""));
    assert!(contains_text("abc", ""));
}

#[test]
fn opening_takes_characters_not_bytes() {
    assert_eq!(opening_of("hello world", 5), "hello");
    assert_eq!(opening_of("hello", 5), "hello");
    assert_eq!(opening_of("hi", 5), "hi");
    assert_eq!(opening_of("ñandú🛑 y más", 6), "ñandú🛑");
    assert_eq!(opening_of("abc", 0), "");
    assert_eq!(opening_of("", 3), "");
}

#[test]
fn decimal_numerals() {
    assert_eq!(decimal_text(0), "0");
    assert_eq!(decimal_text(7), "7");
    assert_eq!(decimal_text(10), "10");
    assert_eq!(decimal_text(1_234_567_890), "1234567890");
    assert_eq!(decimal_text(u128::MAX), u128::MAX.to_string());
}

#[test]
fn padded_numerals() {
    assert_eq!(padded_text(0, 4), "0000");
    assert_eq!(padded_text(15, 4), "0015");
    assert_eq!(padded_text(1500, 4), "1500");
    assert_eq!(padded_text(9999, 4), "9999");
    assert_eq!(padded_text(123_456, 4), "3456");
    assert_eq!(padded_text(5, 0), "");
}
