use mpfoer::text::{has_prefix, last_segment, push_decimal};

fn decimal_of(n: u128) -> String {
    let mut out = String::new();
    push_decimal(&mut out, n);
    out
}

#[test]
fn decimal_of_single_digits() {
    assert_eq!(decimal_of(0), "0");
    assert_eq!(decimal_of(7), "7");
    assert_eq!(decimal_of(9), "9");
}

#[test]
fn decimal_of_round_numbers() {
    assert_eq!(decimal_of(10), "10");
    assert_eq!(decimal_of(100), "100");
    assert_eq!(decimal_of(1_000_000), "1000000");
}

#[test]
fn decimal_of_a_timestamp() {
    assert_eq!(decimal_of(1_700_000_000_123_456), "1700000000123456");
}

#[test]
fn decimal_of_the_largest_number() {
    assert_eq!(decimal_of(u128::MAX), "340282366920938463463374607431768211455");
}

#[test]
fn decimal_agrees_with_the_standard_rendering() {
    let mut n: u128 = 1;
    for _ in 0..120 {
        assert_eq!(decimal_of(n), format!("{}", n));
        assert_eq!(decimal_of(n - 1), format!("{}", n - 1));
        n = n.wrapping_mul(3).wrapping_add(1);
    }
}

#[test]
fn decimal_is_appended_to_what_is_there() {
    let mut out = "vid-".to_string();
    push_decimal(&mut out, 42);
    assert_eq!(out, "vid-42");
    push_decimal(&mut out, 0);
    assert_eq!(out, "vid-420");
}

#[test]
fn last_segment_of_a_url() {
    assert_eq!(last_segment("https://x/test.mov"), "test.mov");
    assert_eq!(last_segment("https://cdn.example/attachments/1/2/clip.webm"), "clip.webm");
}

#[test]
fn last_segment_keeps_the_query() {
    assert_eq!(last_segment("https://x/a/b.mp4?ex=1&is=2"), "b.mp4?ex=1&is=2");
}

#[test]
fn last_segment_without_a_slash_is_the_whole() {
    assert_eq!(last_segment("test.mov"), "test.mov");
    assert_eq!(last_segment(""), "");
}

#[test]
fn last_segment_behind_a_trailing_slash_is_empty() {
    assert_eq!(last_segment("https://x/"), "");
    assert_eq!(last_segment("/"), "");
    assert_eq!(last_segment("a//"), "");
}

#[test]
fn last_segment_with_wide_characters() {
    assert_eq!(last_segment("https://x/видео/клип.mov"), "клип.mov");
}

#[test]
fn has_prefix_on_plain_strings() {
    assert!(has_prefix("video/mp4", "video/"));
    assert!(has_prefix("video/", "video/"));
    assert!(has_prefix("anything", ""));
    assert!(has_prefix("", ""));
    assert!(!has_prefix("video", "video/"));
    assert!(!has_prefix("", "v"));
    assert!(!has_prefix("audio/mp4", "video/"));
    assert!(!has_prefix("videO/mp4", "video/"));
}

#[test]
fn has_prefix_agrees_with_the_standard_test() {
    let samples = ["", "a", "ab", "abc", "b", "ba", "é", "éa", "aé", "ééé", "/", "a/"];
    for s in samples {
        for p in samples {
            assert_eq!(has_prefix(s, p), s.starts_with(p));
        }
    }
}
