use mediascraper::twitter::{DownloadError, TwitterDownloader};

#[test]
fn video_address_is_taken_from_the_og_tag() {
    let page = r#"<html><head><meta property="og:video" content="https://video.twimg.com/a.mp4"/></head></html>"#;
    assert_eq!(TwitterDownloader.video_url(page), Ok("https://video.twimg.com/a.mp4".to_string()));
}

#[test]
fn first_og_tag_wins() {
    let page = r#"property="og:video" content="one" property="og:video" content="two""#;
    assert_eq!(TwitterDownloader.video_url(page), Ok("one".to_string()));
}

#[test]
fn page_without_video() {
    assert_eq!(TwitterDownloader.video_url("<html></html>"), Err(DownloadError::NoVideoFound));
    assert_eq!(DownloadError::NoVideoFound.message(), "No video found");
}
