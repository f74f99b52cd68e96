use mediascraper::instagram::Instagram;
use mediascraper::json::Json;

fn to_json(v: &serde_json::Value) -> Json {
    match v {
        serde_json::Value::Null => Json::Null,
        serde_json::Value::Bool(b) => Json::Bool(*b),
        serde_json::Value::Number(n) => Json::Number(n.to_string()),
        serde_json::Value::String(s) => Json::Str(s.clone()),
        serde_json::Value::Array(a) => Json::Array(a.iter().map(to_json).collect()),
        serde_json::Value::Object(m) => {
            Json::Object(m.iter().map(|(k, v)| (k.clone(), to_json(v))).collect())
        }
    }
}

fn parse(text: &str) -> Json {
    to_json(&serde_json::from_str(text).unwrap())
}

fn s(t: &str) -> Json {
    Json::Str(t.to_string())
}

fn n(t: &str) -> Json {
    Json::Number(t.to_string())
}

fn obj(members: Vec<(&str, Json)>) -> Json {
    Json::Object(members.into_iter().map(|(k, v)| (k.to_string(), v)).collect())
}

const SIDECAR: &str = r#"{"data": {"xdt_shortcode_media": {
    "id": "111", "shortcode": "DHm7knuzl1D", "is_video": false,
    "thumbnail_src": "thumb.jpg",
    "display_resources": [{"src": "small.jpg"}, {"src": "big.jpg"}],
    "edge_media_preview_like": {"count": 42},
    "edge_media_to_caption": {"edges": [{"node": {"text": "hello"}}]},
    "owner": {"full_name": "Ann", "username": "ann", "is_verified": true,
              "profile_pic_url": "ann.jpg",
              "edge_owner_to_timeline_media": {"count": 7},
              "edge_followed_by": {"count": 100}},
    "edge_sidecar_to_children": {"edges": [
        {"node": {"id": "1", "shortcode": "s1", "display_url": "d1.jpg",
                  "display_resources": [{"src": "r1a.jpg"}, {"src": "r1b.jpg"}]}},
        {"other": 1},
        {"node": {"id": "2", "shortcode": "s2", "display_url": "d2.jpg",
                  "video_url": "v2.mp4", "video_play_count": 5}}
    ]}
}}}"#;

#[test]
fn sidecar_post_is_reshaped() {
    let scraper = Instagram::new(reqwest::Client::new(), "DHm7knuzl1D".to_string(), true);
    let (answer, status) = scraper.shape(parse(SIDECAR));
    assert_eq!(status, 200);
    let expected = obj(vec![
        ("platform", s("instagram")),
        (
            "content",
            obj(vec![
                ("id", s("111")),
                ("shortcode", s("DHm7knuzl1D")),
                ("likes", n("42")),
                ("desc", s("hello")),
                ("cover", s("big.jpg")),
                ("is_video", Json::Bool(false)),
            ]),
        ),
        (
            "author",
            obj(vec![
                ("name", s("Ann")),
                ("username", s("ann")),
                ("verified", Json::Bool(true)),
                ("image", s("ann.jpg")),
                ("videos", n("7")),
                ("followers", n("100")),
            ]),
        ),
        (
            "media",
            Json::Array(vec![
                obj(vec![
                    ("id", s("1")),
                    ("shortcode", s("s1")),
                    ("address", s("r1b.jpg")),
                    ("cover", s("d1.jpg")),
                    ("is_video", Json::Bool(false)),
                ]),
                obj(vec![
                    ("id", s("2")),
                    ("shortcode", s("s2")),
                    ("address", s("v2.mp4")),
                    ("cover", s("d2.jpg")),
                    ("is_video", Json::Bool(true)),
                    ("play", n("5")),
                    ("views", n("0")),
                ]),
            ]),
        ),
    ]);
    assert_eq!(answer, expected);
}

#[test]
fn single_video_post_and_defaults() {
    let data = parse(r#"{"data": {"xdt_shortcode_media": {"video_url": "v.mp4", "display_url": "d.jpg"}}}"#);
    let (answer, status) = Instagram::new(reqwest::Client::new(), "x".to_string(), true).shape(data);
    assert_eq!(status, 200);
    assert_eq!(
        answer.get("content"),
        Some(&obj(vec![
            ("id", s("N/A")),
            ("shortcode", s("N/A")),
            ("likes", n("0")),
            ("desc", s("no desc")),
            ("cover", s("N/A")),
            ("is_video", Json::Bool(false)),
        ]))
    );
    assert_eq!(
        answer.get("media"),
        Some(&Json::Array(vec![obj(vec![
            ("id", s("N/A")),
            ("shortcode", s("N/A")),
            ("address", s("v.mp4")),
            ("is_video", Json::Bool(false)),
            ("cover", s("d.jpg")),
        ])]))
    );
}

fn error_object(m: &str) -> Json {
    obj(vec![("error", Json::Bool(true)), ("message", s(m)), ("error_message", s(m))])
}

#[test]
fn single_image_post_lists_its_image() {
    let data = parse(r#"{"data": {"xdt_shortcode_media": {"id": "9", "shortcode": "C1",
        "display_url": "D", "display_resources": [{"src": "small"}, {"src": "large"}]}}}"#);
    let (answer, status) = Instagram::new(reqwest::Client::new(), "C1".to_string(), true).shape(data);
    assert_eq!(status, 200);
    assert_eq!(
        answer.get("media"),
        Some(&Json::Array(vec![obj(vec![
            ("id", s("9")),
            ("shortcode", s("C1")),
            ("address", s("large")),
            ("is_video", Json::Bool(false)),
            ("cover", s("D")),
        ])]))
    );
    let data = parse(r#"{"data": {"xdt_shortcode_media": {"display_url": "D"}}}"#);
    let (answer, _) = Instagram::new(reqwest::Client::new(), "C1".to_string(), true).shape(data);
    let media = Json::array_in(answer.get("media")).unwrap();
    assert_eq!(media.len(), 1);
    assert_eq!(media[0].get("address"), Some(&s("D")));
}

#[test]
fn missing_item_is_an_error() {
    let (answer, status) = Instagram::new(reqwest::Client::new(), "x".to_string(), true).shape(parse(r#"{"data": {}}"#));
    assert_eq!(status, 502);
    assert_eq!(answer, error_object("Item not found"));
    let (answer, status) = Instagram::new(reqwest::Client::new(), "x".to_string(), true).shape(Json::Null);
    assert_eq!(status, 502);
    assert_eq!(answer, error_object("Item not found"));
}

#[test]
fn reply_that_is_not_an_object_is_an_error() {
    for cut in [true, false] {
        let (answer, status) =
            Instagram::new(reqwest::Client::new(), "x".to_string(), cut).shape(parse("[1, 2]"));
        assert_eq!(status, 502);
        assert_eq!(answer, error_object("Unexpected reply: not a JSON object"));
    }
}

#[test]
fn uncut_answer_is_marked_and_returned() {
    let (answer, status) = Instagram::new(reqwest::Client::new(), "x".to_string(), false).shape(parse(r#"{"a": 1}"#));
    assert_eq!(status, 200);
    assert_eq!(answer, obj(vec![("a", n("1")), ("platform", s("instagram"))]));
}

#[test]
fn request_and_parse_failures() {
    assert_eq!(
        Instagram::request_failed("timeout"),
        (error_object("Request failed: timeout"), 502)
    );
    assert_eq!(
        Instagram::parse_failed("EOF"),
        (error_object("JSON parse failed: EOF"), 502)
    );
}

#[test]
fn request_description() {
    assert_eq!(Instagram::graphql(), "https://www.instagram.com/graphql/query/");
    let scraper = Instagram { client: reqwest::Client::new(), item_id: "DHm7knuzl1D".to_string(), cut: true };
    let form = scraper.form_data();
    assert_eq!(form.len(), 20);
    assert_eq!(form[0], ("av".to_string(), "0".to_string()));
    assert_eq!(
        form[17],
        (
            "variables".to_string(),
            "{\"shortcode\":\"DHm7knuzl1D\",\"fetch_tagged_user_count\":null,\"hoisted_comment_id\":null,\"hoisted_reply_id\":null}".to_string()
        )
    );
    assert_eq!(form[19], ("doc_id".to_string(), "9510064595728286".to_string()));
    let headers = Instagram::headers();
    assert_eq!(headers.len(), 7);
    assert_eq!(headers[6], ("x-csrftoken", "11111111111"));
}
