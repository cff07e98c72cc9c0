use anchoring::text::{char_is_whitespace, concat2, concat3, join, whitespace_run};

#[test]
fn whitespace_is_what_the_standard_library_calls_whitespace() {
    let mut count = 0;
    for code in 0..=0x10FFFFu32 {
        if let Some(c) = char::from_u32(code) {
            assert_eq!(char_is_whitespace(c), c.is_whitespace(), "U+{:04X}", code);
            if char_is_whitespace(c) {
                count += 1;
            }
        }
    }
    assert_eq!(count, 25);
    assert!(char_is_whitespace(' '));
    assert!(char_is_whitespace('\t'));
    assert!(char_is_whitespace('\u{3000}'));
    assert!(!char_is_whitespace('a'));
    assert!(!char_is_whitespace('\u{200B}'));
}

#[test]
fn longest_run_of_whitespace_is_measured_in_characters() {
    assert_eq!(whitespace_run(""), 0);
    assert_eq!(whitespace_run("abc"), 0);
    assert_eq!(whitespace_run("a b"), 1);
    assert_eq!(whitespace_run("a  b \t\n c"), 4);
    assert_eq!(whitespace_run("   lead"), 3);
    assert_eq!(whitespace_run("trail    "), 4);
    assert_eq!(whitespace_run("é\u{00A0}\u{2003}\u{3000}é é"), 3);
    assert_eq!(whitespace_run(&" ".repeat(1000)), 1000);
}

#[test]
fn texts_are_joined_in_order() {
    assert_eq!(concat2("ab", "cd"), "abcd");
    assert_eq!(concat3("a", "", "c"), "ac");
    let parts = vec!["x".to_string(), "y".to_string(), "z".to_string()];
    assert_eq!(join(&parts, ", "), "x, y, z");
    assert_eq!(join(&[], ", "), "");
    assert_eq!(join(&parts[..1], ", "), "x");
}
