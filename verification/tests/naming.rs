use mpfoer::clock::timestamp_from;
use mpfoer::entropy::{random_token, TOKEN_LEN};
use mpfoer::scratch::{hint_of, ScratchFile, ScratchStorage};
use std::collections::HashSet;

#[test]
fn hint_is_the_trailing_segment() {
    assert_eq!(hint_of("https://x/test.mov"), "test.mov");
    assert_eq!(hint_of("clip.mp4"), "clip.mp4");
}

#[test]
fn hint_falls_back_to_the_placeholder() {
    assert_eq!(hint_of("https://x/"), "missing_fname");
    assert_eq!(hint_of(""), "missing_fname");
    assert_eq!(hint_of("/"), "missing_fname");
}

#[test]
fn standard_storage_is_at_its_customary_place() {
    assert_eq!(ScratchStorage::standard().dir, "/tmp/mpfoer");
    assert_eq!(ScratchStorage::standard(), ScratchStorage::new("/tmp/mpfoer".to_string()));
}

#[test]
fn new_storage_keeps_its_directory() {
    assert_eq!(ScratchStorage::new("/var/scratch".to_string()).dir, "/var/scratch");
}

#[test]
fn name_is_composed_of_directory_hint_token_and_timestamp() {
    let storage = ScratchStorage::standard();
    let file = storage.file_for("https://x/test.mov", "abc1234", 1_700_000_000_123_456);
    assert_eq!(
        file,
        ScratchFile { path: "/tmp/mpfoer/vid-test.mov-abc1234-1700000000123456".to_string() }
    );
}

#[test]
fn name_in_another_directory() {
    let storage = ScratchStorage::new("/var/scratch".to_string());
    let file = storage.file_for("https://x/y/clip.webm?ex=1", "Zz09Aa1", 0);
    assert_eq!(file.path, "/var/scratch/vid-clip.webm?ex=1-Zz09Aa1-0");
}

#[test]
fn name_for_a_url_without_trailing_segment() {
    let storage = ScratchStorage::standard();
    let file = storage.file_for("https://x/", "abc1234", 5);
    assert_eq!(file.path, "/tmp/mpfoer/vid-missing_fname-abc1234-5");
}

#[test]
fn names_differ_when_only_the_token_differs() {
    let storage = ScratchStorage::standard();
    let a = storage.file_for("https://x/test.mov", "abc1234", 99);
    let b = storage.file_for("https://x/test.mov", "abc1235", 99);
    assert_ne!(a, b);
}

#[test]
fn names_differ_when_only_the_timestamp_differs() {
    let storage = ScratchStorage::standard();
    let a = storage.file_for("https://x/test.mov", "abc1234", 99);
    let b = storage.file_for("https://x/test.mov", "abc1234", 100);
    assert_ne!(a, b);
    let c = storage.file_for("https://x/test.mov", "abc1234", 1);
    let d = storage.file_for("https://x/test.mov", "abc1234", 10);
    assert_ne!(c, d);
}

#[test]
fn token_has_seven_letters_and_digits() {
    assert_eq!(TOKEN_LEN, 7);
    for _ in 0..200 {
        let token = random_token();
        assert_eq!(token.chars().count(), 7);
        assert!(token.chars().all(|c| c.is_ascii_alphanumeric()));
    }
}

#[test]
fn tokens_vary() {
    let mut seen = HashSet::new();
    for _ in 0..200 {
        seen.insert(random_token());
    }
    assert!(seen.len() > 190);
}

#[test]
fn fresh_name_follows_the_naming_rule() {
    let storage = ScratchStorage::standard();
    let file = storage.fresh_file("https://x/test.mov");
    let rest = file.path.strip_prefix("/tmp/mpfoer/vid-test.mov-").expect("directory, tag and hint");
    let parts: Vec<&str> = rest.split('-').collect();
    assert_eq!(parts.len(), 2);
    assert_eq!(parts[0].len(), 7);
    assert!(parts[0].chars().all(|c| c.is_ascii_alphanumeric()));
    assert!(!parts[1].is_empty());
    assert!(parts[1].chars().all(|c| c.is_ascii_digit()));
    let micros: u128 = parts[1].parse().expect("a number");
    assert!(micros > 1_000_000_000_000_000);
    assert_eq!(format!("{}", micros), parts[1]);
}

#[test]
fn fresh_name_lies_directly_in_the_directory() {
    let storage = ScratchStorage::new("/var/scratch".to_string());
    let file = storage.fresh_file("https://x/a/b/../c.mov");
    let rest = file.path.strip_prefix("/var/scratch/").expect("the directory");
    assert!(!rest.contains('/'));
    assert!(rest.contains("c.mov"));
}

#[test]
fn fresh_names_are_unique_over_ten_thousand_generations() {
    let storage = ScratchStorage::standard();
    let mut seen = HashSet::new();
    for _ in 0..10_000 {
        let file = storage.fresh_file("https://x/test.mov");
        assert!(seen.insert(file.path), "a scratch name came up twice");
    }
    assert_eq!(seen.len(), 10_000);
}

#[test]
fn timestamp_is_what_the_clock_shows() {
    assert_eq!(timestamp_from(Some(1_700_000_000_123_456)), 1_700_000_000_123_456);
    assert_eq!(timestamp_from(Some(0)), 0);
    assert_eq!(timestamp_from(Some(u128::MAX)), u128::MAX);
}

#[test]
fn clock_before_the_epoch_counts_as_zero() {
    assert_eq!(timestamp_from(None), 0);
}
