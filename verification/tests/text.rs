use happy_wakey_lambdas::text::{byte_len, chars_of, control, same_text, white_space};
use happy_wakey_lambdas::UtcInstant;

#[test]
fn character_classes_follow_unicode() {
    for c in ['\t', '\n', '\u{b}', '\u{c}', '\r', ' ', '\u{85}', '\u{a0}', '\u{1680}', '\u{2000}', '\u{200a}', '\u{2028}', '\u{2029}', '\u{202f}', '\u{205f}', '\u{3000}'] {
        assert!(white_space(c), "{c:?}");
        assert_eq!(white_space(c), c.is_whitespace());
    }
    for c in ['a', '\u{200b}', '\u{feff}', '-', '\u{0}'] {
        assert!(!white_space(c), "{c:?}");
    }
    for c in ['\u{0}', '\u{1f}', '\u{7f}', '\u{9f}'] {
        assert!(control(c));
    }
    for c in [' ', '\u{a0}', 'é', '\u{200e}'] {
        assert!(!control(c));
        assert_eq!(control(c), c.is_control());
    }
}

#[test]
fn texts_compare_and_measure_by_characters_and_bytes() {
    assert!(same_text("tenant-1", "tenant-1"));
    assert!(!same_text("tenant-1", "tenant-2"));
    assert!(!same_text("a", "ab"));
    assert_eq!(byte_len("é☃"), 5);
    assert_eq!(chars_of("é☃"), vec!['é', '☃']);
}

#[test]
fn instants_order_by_seconds_then_nanoseconds() {
    let a = UtcInstant { unix_seconds: 10, nanosecond: 5 };
    assert!(UtcInstant { unix_seconds: 10, nanosecond: 6 }.is_after(&a));
    assert!(UtcInstant { unix_seconds: 11, nanosecond: 0 }.is_after(&a));
    assert!(!a.is_after(&a));
    assert!(!UtcInstant { unix_seconds: 9, nanosecond: 999_999_999 }.is_after(&a));
}
