use mediascraper::text::{chars_of, concat_str, contains, replace_all, string_from_chars, trim, with_number};

#[test]
fn replace_all_replaces_every_occurrence() {
    assert_eq!(replace_all("a/photo/b/photo", "/photo", "/video"), "a/video/b/video");
}

#[test]
fn replace_all_without_occurrence_keeps_text() {
    assert_eq!(replace_all("https://x.com/a", "/photo", "/video"), "https://x.com/a");
}

#[test]
fn replace_all_is_non_overlapping_from_the_left() {
    assert_eq!(replace_all("aaa", "aa", "b"), "ba");
    assert_eq!(replace_all("", "aa", "b"), "");
}

#[test]
fn replace_all_matches_std_replace() {
    let cases = [
        ("https://web.facebook.com/x/", "web.facebook", "www.facebook"),
        ("https://www.tiktok.com/@a/photo/1", "/photo", "/video"),
        ("ééé/photoé", "/photo", "/vidéo"),
        ("https://www.tiktok.comhttps://www.tiktok.com", "https://www.tiktok.com", "h"),
    ];
    for (s, f, t) in cases {
        assert_eq!(replace_all(s, f, t), s.replace(f, t));
    }
}

#[test]
fn contains_finds_needles() {
    assert!(contains("https://vm.tiktok.com/ZS/", "vm.tiktok.com"));
    assert!(!contains("https://www.tiktok.com/@a", "vm.tiktok.com"));
    assert!(contains("abc", ""));
    assert!(!contains("ab", "abc"));
    assert!(contains("abc", "abc"));
}

#[test]
fn trim_matches_std_trim() {
    let cases = ["  a b  ", "\t\n{\"x\":1}\r\n", "", "   ", "\u{3000}x\u{2009}", "x", "\u{85}y\u{a0}"];
    for c in cases {
        assert_eq!(trim(c), c.trim());
    }
}

#[test]
fn with_number_renders_decimal() {
    assert_eq!(with_number("quality_", 0), "quality_0");
    assert_eq!(with_number("image_", 12), "image_12");
    assert_eq!(with_number("", 1234567890), "1234567890");
    assert_eq!(with_number("n", usize::MAX), format!("n{}", usize::MAX));
}

#[test]
fn chars_round_trip() {
    let v = chars_of("héllo");
    assert_eq!(v, vec!['h', 'é', 'l', 'l', 'o']);
    assert_eq!(string_from_chars(&v), "héllo");
}

#[test]
fn concat_joins() {
    assert_eq!(concat_str("Request failed: ", "timeout"), "Request failed: timeout");
}
