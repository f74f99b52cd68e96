use mediascraper::json::Json;

fn to_json(v: &serde_json::Value) -> Json {
    match v {
        serde_json::Value::Null => Json::Null,
        serde_json::Value::Bool(b) => Json::Bool(*b),
        serde_json::Value::Number(n) => Json::Number(n.to_string()),
        serde_json::Value::String(s) => Json::Str(s.clone()),
        serde_json::Value::Array(a) => Json::Array(a.iter().map(to_json).collect()),
        serde_json::Value::Object(m) => {
            Json::Object(m.iter().map(|(k, v)| (k.clone(), to_json(v))).collect())
        }
    }
}

fn parse(text: &str) -> Json {
    to_json(&serde_json::from_str(text).unwrap())
}

fn s(t: &str) -> Json {
    Json::Str(t.to_string())
}

#[test]
fn get_reads_object_members() {
    let j = parse(r#"{"a": 1, "b": "two"}"#);
    assert_eq!(j.get("b"), Some(&s("two")));
    assert_eq!(j.get("c"), None);
    assert_eq!(parse("[1, 2]").get("a"), None);
    assert_eq!(Json::Null.get("a"), None);
}

#[test]
fn get_takes_the_first_of_repeated_keys() {
    let j = Json::Object(vec![("k".to_string(), s("first")), ("k".to_string(), s("second"))]);
    assert_eq!(j.get("k"), Some(&s("first")));
}

#[test]
fn insert_replaces_or_appends() {
    let mut j = Json::Object(vec![("a".to_string(), s("x")), ("b".to_string(), s("y"))]);
    j.insert("a", s("z"));
    assert_eq!(j, Json::Object(vec![("a".to_string(), s("z")), ("b".to_string(), s("y"))]));
    j.insert("platform", s("instagram"));
    assert_eq!(j.get("platform"), Some(&s("instagram")));
    assert_eq!(j.get("b"), Some(&s("y")));
    let mut n = Json::Null;
    n.insert("platform", s("instagram"));
    assert_eq!(n, Json::Object(vec![("platform".to_string(), s("instagram"))]));
}

#[test]
fn deep_clone_is_equal() {
    let j = parse(r#"{"a": [1, {"b": null, "c": true}], "d": "e"}"#);
    assert_eq!(j.deep_clone(), j);
}

#[test]
fn optional_navigation() {
    let j = parse(r#"{"a": {"b": [10, 20, 30]}}"#);
    let arr = Json::array_in(Json::get_in(j.get("a"), "b"));
    assert_eq!(Json::last_in(arr), Some(&Json::Number("30".to_string())));
    assert_eq!(Json::first_in(arr), Some(&Json::Number("10".to_string())));
    assert_eq!(Json::last_in(Json::array_in(j.get("a"))), None);
    assert_eq!(Json::value_or(j.get("zzz"), Json::na()), s("N/A"));
    assert_eq!(Json::zero(), Json::Number("0".to_string()));
    assert_eq!(s("t").as_str(), Some(&"t".to_string()));
    assert_eq!(Json::Bool(true).as_str(), None);
}

#[test]
fn error_object_has_the_service_shape() {
    assert_eq!(
        Json::error_object("something went wrong", "unable to get item"),
        Json::Object(vec![
            ("error".to_string(), Json::Bool(true)),
            ("message".to_string(), s("something went wrong")),
            ("error_message".to_string(), s("unable to get item")),
        ])
    );
}

#[test]
fn object_builder_keeps_order() {
    let j = Json::object().with("b", s("1")).with("a", s("2"));
    assert_eq!(j, Json::Object(vec![("b".to_string(), s("1")), ("a".to_string(), s("2"))]));
}
