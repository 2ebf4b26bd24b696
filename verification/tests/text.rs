use slint_backend_linuxfb::text::chars_of;
use slint_backend_linuxfb::text::contains_chars;
use slint_backend_linuxfb::text::matches_at;
use slint_backend_linuxfb::text::str_contains;
use slint_backend_linuxfb::text::str_equal;
use slint_backend_linuxfb::text::str_starts_with;

#[test]
fn the_characters_of_a_string_are_its_characters() {
    assert_eq!(chars_of(""), Vec::<char>::new());
    assert_eq!(chars_of("ab c"), vec!['a', 'b', ' ', 'c']);
    assert_eq!(chars_of("\u{e4}\u{20ac}x"), vec!['\u{e4}', '\u{20ac}', 'x']);
}

#[test]
fn a_text_stands_in_another_where_its_characters_follow_each_other() {
    assert!(str_contains("Goodix Touchscreen", "Touch"));
    assert!(str_contains("Goodix Touchscreen", "Goodix"));
    assert!(str_contains("Goodix Touchscreen", "screen"));
    assert!(str_contains("Goodix Touchscreen", "Goodix Touchscreen"));
    assert!(str_contains("Goodix Touchscreen", ""));
    assert!(str_contains("", ""));
    assert!(!str_contains("", "a"));
    assert!(!str_contains("Goodix Touchscreen", "touch"));
    assert!(!str_contains("Goodix Touchscreen", "Goodix Touchscreens"));
    assert!(!str_contains("aab", "aba"));
    assert!(str_contains("aaab", "aab"));
    assert!(str_contains("stra\u{df}e", "a\u{df}"));
    assert!(!str_contains("stra\u{df}e", "ss"));
    for (hay, needle) in [("abcabc", "cab"), ("abcabc", "cc"), ("x", "xx"), ("mississippi", "issip")] {
        assert_eq!(str_contains(hay, needle), hay.contains(needle));
    }
}

#[test]
fn a_text_stands_at_a_position_or_not() {
    let hay = chars_of("abcabc");
    let needle = chars_of("bc");
    assert!(matches_at(&hay, &needle, 1));
    assert!(matches_at(&hay, &needle, 4));
    assert!(!matches_at(&hay, &needle, 0));
    assert!(!matches_at(&hay, &needle, 5));
    assert!(!matches_at(&hay, &needle, 6));
    assert!(!matches_at(&hay, &needle, usize::MAX));
    assert!(matches_at(&hay, &vec![], 6));
    assert!(!matches_at(&hay, &vec![], 7));
    assert!(contains_chars(&hay, &needle));
    assert!(!contains_chars(&needle, &hay));
}

#[test]
fn a_prefix_stands_at_the_beginning() {
    assert!(str_starts_with("Block devices:", "Block"));
    assert!(str_starts_with("Block devices:", ""));
    assert!(str_starts_with("Block", "Block"));
    assert!(!str_starts_with("Block", "Blocks"));
    assert!(!str_starts_with(" Block", "Block"));
    assert!(!str_starts_with("", "B"));
}

#[test]
fn equal_strings_hold_the_same_characters() {
    assert!(str_equal("", ""));
    assert!(str_equal("/dev/tty1", "/dev/tty1"));
    assert!(!str_equal("/dev/tty1", "/dev/tty10"));
    assert!(!str_equal("/dev/tty1", "/dev/tty2"));
    assert!(!str_equal("a", ""));
}
