use mediascraper::api::{api_error_body, entry_url_exec, plan, request_url, respond, Reply};
use mediascraper::json::Json;
use mediascraper::validator::Platform;

fn body_with_url(url: &str) -> Json {
    Json::Object(vec![("url".to_string(), Json::Str(url.to_string()))])
}

fn rejected(r: Reply) -> (u16, Json) {
    match r {
        Reply::Reject { status, body } => (status, body),
        Reply::Scrape(_) => panic!("expected a refusal"),
    }
}

fn scraped(r: Reply) -> (Platform, String) {
    match r {
        Reply::Scrape(route) => (route.platform, route.target),
        Reply::Reject { .. } => panic!("expected a scrape"),
    }
}

#[test]
fn body_url_comes_before_query_url() {
    let body = body_with_url("https://a/");
    assert_eq!(request_url(Some(&body), Some("https://b/")), Some("https://a/".to_string()));
    assert_eq!(request_url(None, Some("https://b/")), Some("https://b/".to_string()));
    let not_text = Json::Object(vec![("url".to_string(), Json::Bool(true))]);
    assert_eq!(request_url(Some(&not_text), Some("https://b/")), Some("https://b/".to_string()));
    assert_eq!(request_url(Some(&Json::Array(vec![])), None), None);
}

#[test]
fn missing_url_is_refused() {
    let (status, body) = rejected(plan(None, None).unwrap());
    assert_eq!(status, 400);
    assert_eq!(body, api_error_body("URL is required"));
    assert_eq!(body.get("error"), Some(&Json::Bool(true)));
    assert_eq!(body.get("message"), Some(&Json::Str("URL is required".to_string())));
    assert_eq!(body.get("error_message"), Some(&Json::Str("URL is required".to_string())));
}

#[test]
fn unsupported_url_is_refused() {
    let (status, body) = rejected(plan(None, Some("https://example.com/v/1")).unwrap());
    assert_eq!(status, 400);
    assert_eq!(body, api_error_body("Unsupported URL"));
}

#[test]
fn supported_urls_are_routed() {
    let body = body_with_url("https://www.instagram.com/reel/DHm7knuzl1D");
    assert_eq!(
        scraped(plan(Some(&body), None).unwrap()),
        (Platform::Instagram, "DHm7knuzl1D".to_string())
    );
    assert_eq!(
        scraped(plan(None, Some("https://web.facebook.com/share/v/qCRH3vKk2FbAEAUP/")).unwrap()),
        (Platform::Facebook, "https://www.facebook.com/share/v/qCRH3vKk2FbAEAUP/".to_string())
    );
    assert_eq!(
        scraped(plan(None, Some("https://vm.tiktok.com/ZSHK8GLq32Kjh-qQ9X4/")).unwrap()),
        (Platform::TikTok, "https://vm.tiktok.com/ZSHK8GLq32Kjh-qQ9X4/".to_string())
    );
    assert_eq!(
        scraped(plan(None, Some("https://snapchat.com/t/GJbX4HdO")).unwrap()).0,
        Platform::Snapchat
    );
    assert_eq!(
        scraped(plan(None, Some("https://x.com/username/status/1234567890")).unwrap()).0,
        Platform::Twitter
    );
}

#[test]
fn instagram_posts_are_asked_for_by_shortcode() {
    assert_eq!(
        scraped(plan(None, Some("https://www.instagram.com/p/ABC_12-x/?igsh=1")).unwrap()),
        (Platform::Instagram, "ABC_12-x".to_string())
    );
}

#[test]
fn facebook_rewrite_is_stable() {
    let (_, first) = scraped(plan(None, Some("https://web.facebook.com/web.facebook/v/1/")).unwrap());
    assert_eq!(first, "https://www.facebook.com/www.facebook/v/1/");
    let (_, again) = scraped(plan(None, Some(&first)).unwrap());
    assert_eq!(again, first);
}

fn s(t: &str) -> Json {
    Json::Str(t.to_string())
}

fn obj(members: Vec<(&str, Json)>) -> Json {
    Json::Object(members.into_iter().map(|(k, v)| (k.to_string(), v)).collect())
}

#[test]
fn success_answers_take_the_documented_form() {
    let shaped = obj(vec![
        ("platform", s("instagram")),
        (
            "media",
            Json::Array(vec![
                obj(vec![("address", s("https://a.jpg"))]),
                obj(vec![("address", Json::Null)]),
                obj(vec![("address", s("https://b.mp4"))]),
            ]),
        ),
    ]);
    let (body, status) = respond(Platform::Instagram, shaped, 200);
    assert_eq!(status, 200);
    assert_eq!(
        body,
        obj(vec![
            ("data", Json::Array(vec![s("https://a.jpg"), s("https://b.mp4")])),
            ("total", Json::Number("2".to_string())),
            ("platform", s("Instagram")),
        ])
    );
    let tiktok = obj(vec![(
        "videos",
        Json::Array(vec![
            obj(vec![("quality_0", obj(vec![("size", s("N/A")), ("address", s("v0"))]))]),
            obj(vec![("quality_1", obj(vec![("size", s("N/A")), ("address", s("v1"))]))]),
        ]),
    )]);
    let (body, _) = respond(Platform::TikTok, tiktok, 200);
    assert_eq!(body.get("data"), Some(&Json::Array(vec![s("v0"), s("v1")])));
    assert_eq!(body.get("total"), Some(&Json::Number("2".to_string())));
    let (body, _) = respond(Platform::TikTok, obj(vec![]), 200);
    assert_eq!(body.get("total"), Some(&Json::Number("0".to_string())));
}

#[test]
fn failures_pass_unchanged() {
    let err = api_error_body("Item not found");
    let (body, status) = respond(Platform::Instagram, api_error_body("Item not found"), 502);
    assert_eq!(status, 502);
    assert_eq!(body, err);
}

#[test]
fn entry_urls() {
    assert_eq!(entry_url_exec(&obj(vec![("address", s("u"))])), Some("u".to_string()));
    assert_eq!(entry_url_exec(&obj(vec![("image_0", obj(vec![("address", s("i"))]))])), Some("i".to_string()));
    assert_eq!(entry_url_exec(&obj(vec![("a", s("x")), ("b", s("y"))])), None);
    assert_eq!(entry_url_exec(&s("u")), None);
}
