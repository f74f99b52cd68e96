use mediascraper::validator::{InvalidPattern, Platform, Validator};

#[test]
fn readme_examples_are_classified() {
    let cases = [
        ("https://vm.tiktok.com/ZSHK8GLq32Kjh-qQ9X4/", Platform::TikTok),
        ("https://www.tiktok.com/@devfemibadmus/video/7390912680883899654", Platform::TikTok),
        ("https://www.instagram.com/reel/DHm7knuzl1D", Platform::Instagram),
        ("https://www.instagram.com/p/ABC_12-x/", Platform::Instagram),
        ("https://www.facebook.com/share/v/qCRH3vKk2FbAEAUP/", Platform::Facebook),
        ("https://fb.watch/abc/", Platform::Facebook),
        ("https://fb.watch/AbCdEf", Platform::Facebook),
        ("https://vm.tiktok.com/ZSHK8GLq32Kjh-qQ9X4", Platform::TikTok),
        ("https://tiktok.com/ a/", Platform::TikTok),
        ("https://www.facebook.com/ x/", Platform::Facebook),
        ("https://www.facebook.com/share/v/qCRH3vKk2FbAEAUP", Platform::Facebook),
        ("https://snapchat.com/t/GJbX4HdO", Platform::Snapchat),
        ("https://x.com/username/status/1234567890", Platform::Twitter),
        ("https://twitter.com/username/status/TWEET_ID", Platform::Twitter),
    ];
    for (url, p) in cases {
        assert_eq!(Validator::validate(url), Ok(Some(p)), "{}", url);
    }
}

#[test]
fn unknown_urls_are_invalid() {
    assert_eq!(Validator::validate("https://example.com/video/1"), Ok(None));
    assert_eq!(Validator::validate("https://www.instagram.com/stories/x"), Ok(None));
    assert_eq!(Validator::validate(""), Ok(None));
    assert_eq!(Validator::validate("https://www.tiktok.com/"), Ok(None));
    assert_eq!(Validator::validate("https://fb.watch/"), Ok(None));
}

#[test]
fn earlier_patterns_win() {
    // Matches both the TikTok and the Twitter pattern.
    assert_eq!(
        Validator::validate("https://tiktok.com/a/x.com/b/status/"),
        Ok(Some(Platform::TikTok))
    );
}

#[test]
fn decide_takes_first_decisive_outcome() {
    assert_eq!(Validator::decide(&vec![]), Ok(None));
    assert_eq!(Validator::decide(&vec![Some(false), Some(true)]), Ok(Some(Platform::Instagram)));
    assert_eq!(
        Validator::decide(&vec![Some(false), Some(false), Some(false), Some(false), Some(true)]),
        Ok(Some(Platform::Twitter))
    );
    assert_eq!(
        Validator::decide(&vec![Some(false), None, Some(true)]),
        Err(InvalidPattern { index: 1 })
    );
    assert_eq!(Validator::decide(&vec![Some(true), None]), Ok(Some(Platform::TikTok)));
    assert_eq!(Validator::decide(&vec![Some(false); 5]), Ok(None));
}

#[test]
fn platform_names() {
    assert_eq!(Platform::TikTok.name(), "TikTok");
    assert_eq!(Platform::Instagram.name(), "Instagram");
    assert_eq!(Platform::Facebook.name(), "Facebook");
    assert_eq!(Platform::Snapchat.name(), "Snapchat");
    assert_eq!(Platform::Twitter.name(), "Twitter");
}

#[test]
fn patterns_and_platforms_line_up() {
    assert_eq!(Validator::pattern(0), r"tiktok\.com/.+");
    assert_eq!(Validator::pattern(3), r"snapchat\.com/t/");
    assert_eq!(Validator::platform(2), Platform::Facebook);
    assert_eq!(Validator::platform(4), Platform::Twitter);
}
