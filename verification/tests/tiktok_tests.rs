use mediascraper::json::Json;
use mediascraper::tiktok::{FetchAction, FetchEvent, FetchState, TikTokv2};

fn to_json(v: &serde_json::Value) -> Json {
    match v {
        serde_json::Value::Null => Json::Null,
        serde_json::Value::Bool(b) => Json::Bool(*b),
        serde_json::Value::Number(n) => Json::Number(n.to_string()),
        serde_json::Value::String(s) => Json::Str(s.clone()),
        serde_json::Value::Array(a) => Json::Array(a.iter().map(to_json).collect()),
        serde_json::Value::Object(m) => {
            Json::Object(m.iter().map(|(k, v)| (k.clone(), to_json(v))).collect())
        }
    }
}

fn parse(text: &str) -> Json {
    to_json(&serde_json::from_str(text).unwrap())
}

fn s(t: &str) -> Json {
    Json::Str(t.to_string())
}

fn n(t: &str) -> Json {
    Json::Number(t.to_string())
}

fn obj(members: Vec<(&str, Json)>) -> Json {
    Json::Object(members.into_iter().map(|(k, v)| (k.to_string(), v)).collect())
}

fn finished(a: FetchAction) -> Result<Json, String> {
    match a {
        FetchAction::Finish(r) => r,
        _ => panic!("not finished"),
    }
}

#[test]
fn photo_pages_become_video_pages() {
    let t = TikTokv2::new("https://www.tiktok.com/@a/photo/123", true, reqwest::Client::new());
    assert_eq!(t.url, "https://www.tiktok.com/@a/video/123");
    assert!(t.cut);
    let t = TikTokv2::new("https://www.tiktok.com/@devfemibadmus/video/7390912680883899654", false, reqwest::Client::new());
    assert_eq!(t.url, "https://www.tiktok.com/@devfemibadmus/video/7390912680883899654");
}

#[test]
fn short_links_are_resolved_first() {
    let mut t = TikTokv2::new("https://vm.tiktok.com/ZSHK8GLq32Kjh-qQ9X4/", true, reqwest::Client::new());
    let (state, action) = t.begin();
    assert_eq!(state, FetchState::Resolving);
    assert!(matches!(action, FetchAction::Send(ref u) if u == "https://vm.tiktok.com/ZSHK8GLq32Kjh-qQ9X4/"));
    let (state, action) = t.advance(
        state,
        FetchEvent::Responded {
            final_url: "https://www.tiktok.com/@a/video/1".to_string(),
            status: 200,
            status_line: "200 OK".to_string(),
        },
    );
    assert_eq!(state, FetchState::Requesting);
    assert!(matches!(action, FetchAction::Send(ref u) if u == "https://www.tiktok.com/@a/video/1"));
    assert_eq!(t.url, "https://www.tiktok.com/@a/video/1");
}

#[test]
fn failed_redirect() {
    let mut t = TikTokv2::new("https://vm.tiktok.com/x/", true, reqwest::Client::new());
    let (state, _) = t.begin();
    let (state, action) = t.advance(state, FetchEvent::SendFailed("dns".to_string()));
    assert_eq!(state, FetchState::Done);
    assert_eq!(finished(action), Err("Failed to follow vm.tiktok.com redirect".to_string()));
}

#[test]
fn full_page_fetch() {
    let mut t = TikTokv2::new("https://www.tiktok.com/@a/video/1", true, reqwest::Client::new());
    let (state, action) = t.begin();
    assert_eq!(state, FetchState::Requesting);
    assert!(matches!(action, FetchAction::Send(_)));
    let (state, action) = t.advance(
        state,
        FetchEvent::Responded {
            final_url: "https://elsewhere/".to_string(),
            status: 200,
            status_line: "200 OK".to_string(),
        },
    );
    assert_eq!(state, FetchState::Reading);
    assert!(matches!(action, FetchAction::ReadBody));
    assert_eq!(t.url, "https://www.tiktok.com/@a/video/1");
    let page = r#"<html><body><script id="other">x</script><script id="__UNIVERSAL_DATA_FOR_REHYDRATION__" type="application/json">
      {"__DEFAULT_SCOPE__": {"webapp.video-detail": {"k": 1}}}
    </script></body></html>"#;
    let (state, action) = t.advance(state, FetchEvent::BodyRead(page.to_string()));
    assert_eq!(state, FetchState::Decoding);
    let text = match action {
        FetchAction::Decode(text) => text,
        _ => panic!("expected decode"),
    };
    assert_eq!(text, r#"{"__DEFAULT_SCOPE__": {"webapp.video-detail": {"k": 1}}}"#);
    let (state, action) = t.advance(state, FetchEvent::Decoded(Some(parse(&text))));
    assert_eq!(state, FetchState::Done);
    assert_eq!(finished(action), Ok(obj(vec![("k", n("1"))])));
}

#[test]
fn fetch_failures() {
    let t0 = TikTokv2::new("https://www.tiktok.com/@a/video/1", true, reqwest::Client::new());
    let mut t = TikTokv2::new("https://www.tiktok.com/@a/video/1", true, reqwest::Client::new());
    let (_, action) = t.advance(
        FetchState::Requesting,
        FetchEvent::Responded { final_url: t0.url.clone(), status: 404, status_line: "404 Not Found".to_string() },
    );
    assert_eq!(finished(action), Err("Failed to fetch page content: 404 Not Found".to_string()));
    let (_, action) = t.advance(FetchState::Requesting, FetchEvent::SendFailed("timed out".to_string()));
    assert_eq!(finished(action), Err("Request error: timed out".to_string()));
    let (_, action) = t.advance(FetchState::Reading, FetchEvent::ReadFailed("reset".to_string()));
    assert_eq!(finished(action), Err("Read body failed: reset".to_string()));
    let (_, action) = t.advance(FetchState::Reading, FetchEvent::BodyRead("<html></html>".to_string()));
    assert_eq!(finished(action), Err("No script tag found".to_string()));
    let (_, action) = t.advance(FetchState::Decoding, FetchEvent::Decoded(None));
    assert_eq!(finished(action), Err("Invalid JSON in script".to_string()));
    let (_, action) = t.advance(FetchState::Decoding, FetchEvent::Decoded(Some(parse(r#"{"__DEFAULT_SCOPE__": {}}"#))));
    assert_eq!(finished(action), Err("No webapp.video-detail in JSON".to_string()));
}

#[test]
fn accepted_events() {
    assert!(TikTokv2::accepts(FetchState::Resolving, &FetchEvent::SendFailed(String::new())));
    assert!(TikTokv2::accepts(FetchState::Reading, &FetchEvent::BodyRead(String::new())));
    assert!(!TikTokv2::accepts(FetchState::Reading, &FetchEvent::Decoded(None)));
    assert!(TikTokv2::accepts(FetchState::Decoding, &FetchEvent::Decoded(None)));
    assert!(!TikTokv2::accepts(FetchState::Done, &FetchEvent::Decoded(None)));
}

const VIDEO: &str = r#"{"itemInfo": {"itemStruct": {
    "id": "7390912680883899654", "desc": "a video",
    "stats": {"playCount": 10, "diggCount": 2, "commentCount": 3, "collectCount": 4, "shareCount": 5},
    "video": {"cover": "c.jpg", "bitrateInfo": [
        {"PlayAddr": {"DataSize": 100, "UrlList": ["https://a/1", "https://www.tiktok.com/aweme/v1/play/?id=1"]}},
        {"PlayAddr": {"UrlList": []}}
    ]},
    "author": {"nickname": "Femi", "uniqueId": "devfemibadmus", "verified": false, "avatarMedium": "av.jpg", "signature": "bio!"},
    "music": {"authorName": "M", "title": "T", "coverMedium": "mc.jpg", "duration": 30, "playUrl": "m.mp3"}
}}}"#;

#[test]
fn video_post_is_reshaped() {
    let t = TikTokv2::new("https://www.tiktok.com/@a/video/1", true, reqwest::Client::new());
    let (answer, status) = t.shape(parse(VIDEO));
    assert_eq!(status, 200);
    let expected = obj(vec![
        ("platform", s("tiktok")),
        ("is_video", Json::Bool(true)),
        (
            "content",
            obj(vec![
                ("id", s("7390912680883899654")),
                ("desc", s("a video")),
                ("views", n("10")),
                ("likes", n("2")),
                ("comments", n("3")),
                ("saves", n("4")),
                ("share", n("5")),
                ("cover", s("c.jpg")),
            ]),
        ),
        (
            "author",
            obj(vec![
                ("name", s("Femi")),
                ("username", s("devfemibadmus")),
                ("verified", Json::Bool(false)),
                ("image", s("av.jpg")),
                ("bio", s("bio!")),
            ]),
        ),
        (
            "videos",
            Json::Array(vec![
                obj(vec![(
                    "quality_0",
                    obj(vec![
                        ("size", n("100")),
                        ("address", s("https://api16-normal-useast5.tiktokv.us/aweme/v1/play/?id=1")),
                    ]),
                )]),
                obj(vec![("quality_1", obj(vec![("size", s("N/A")), ("address", s("N/A"))]))]),
            ]),
        ),
        (
            "music",
            obj(vec![
                ("author", s("M")),
                ("title", s("T")),
                ("cover", s("mc.jpg")),
                ("duration", n("30")),
                ("src", s("m.mp3")),
            ]),
        ),
    ]);
    assert_eq!(answer, expected);
}

#[test]
fn photo_post_is_reshaped() {
    let data = parse(r#"{"itemInfo": {"itemStruct": {
        "id": "5", "locationCreated": "NG", "playUrl": "p.mp3",
        "imagePost": {"title": "pics",
            "cover": {"imageURL": {"urlList": ["c1", "c2"]}},
            "images": [{"imageURL": {"urlList": ["i0a", "i0b"]}, "imageHeight": 1080}, {"imageURL": {}}]}
    }}}"#);
    let (answer, status) = TikTokv2::new("u", true, reqwest::Client::new()).shape(data);
    assert_eq!(status, 200);
    assert_eq!(answer.get("is_image"), Some(&Json::Bool(true)));
    assert_eq!(
        answer.get("content"),
        Some(&obj(vec![
            ("id", s("5")),
            ("desc", s("N/A")),
            ("title", s("pics")),
            ("views", n("0")),
            ("likes", n("0")),
            ("comments", n("0")),
            ("saves", n("0")),
            ("share", n("0")),
            ("cover", s("c2")),
        ]))
    );
    assert_eq!(
        answer.get("images"),
        Some(&Json::Array(vec![
            obj(vec![("image_0", obj(vec![("address", s("i0b")), ("size", n("1080"))]))]),
            obj(vec![("image_1", obj(vec![("address", s("")), ("size", s("N/A"))]))]),
        ]))
    );
    assert_eq!(
        answer.get("author"),
        Some(&obj(vec![
            ("name", s("N/A")),
            ("username", s("N/A")),
            ("verified", Json::Bool(false)),
            ("image", s("N/A")),
            ("location", s("NG")),
        ]))
    );
    assert_eq!(Json::get_in(answer.get("music"), "src"), Some(&s("p.mp3")));
}

#[test]
fn missing_item_and_uncut() {
    let (answer, status) = TikTokv2::new("u", true, reqwest::Client::new()).shape(parse(r#"{"itemInfo": {}}"#));
    assert_eq!(status, 502);
    assert_eq!(
        answer,
        obj(vec![
            ("error", Json::Bool(true)),
            ("message", s("something went wrong")),
            ("error_message", s("unable to get item from itemStruct")),
        ])
    );
    let data = parse(r#"{"x": [1]}"#);
    let (answer, status) = TikTokv2::new("u", false, reqwest::Client::new()).shape(data.deep_clone());
    assert_eq!(status, 200);
    assert_eq!(answer, data);
}

#[test]
fn finish_reports_fetch_errors() {
    let t = TikTokv2::new("u", true, reqwest::Client::new());
    let (answer, status) = t.finish(Err("No script tag found".to_string()));
    assert_eq!(status, 502);
    assert_eq!(answer, t.err("No script tag found", "No script tag found"));
    let (_, status) = t.finish(Ok(parse(VIDEO)));
    assert_eq!(status, 200);
}

#[test]
fn headers() {
    let h = TikTokv2::headers();
    assert_eq!(h.len(), 2);
    assert_eq!(h[1], ("referer", "https://www.tiktok.com/"));
}

#[test]
fn settled_urls_are_stable() {
    let first = TikTokv2::new("https://www.tiktok.com/@a/photo/photo/1/photo", true, reqwest::Client::new());
    assert!(!first.url.contains("/photo"));
    let again = TikTokv2::new(&first.url, true, reqwest::Client::new());
    assert_eq!(again.url, first.url);
}
