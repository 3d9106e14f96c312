use web_search_plugin::codec::{error_text, parse_json};
use web_search_plugin::json::Json;

fn text(s: &str) -> Json {
    Json::Str(s.to_string())
}

#[test]
fn documents_are_read() {
    assert_eq!(parse_json("null"), Ok(Json::Null));
    assert_eq!(parse_json(" true "), Ok(Json::Bool(true)));
    assert_eq!(parse_json("42"), Ok(Json::Number("42".to_string())));
    assert_eq!(parse_json("-1.5"), Ok(Json::Number("-1.5".to_string())));
    assert_eq!(parse_json("\"a\\nb\\u00e9\""), Ok(text("a\nbé")));
    assert_eq!(
        parse_json("[1, [], {\"k\": \"v\"}]"),
        Ok(Json::Array(vec![
            Json::Number("1".to_string()),
            Json::Array(Vec::new()),
            Json::Object(vec![("k".to_string(), text("v"))]),
        ]))
    );
}

#[test]
fn a_later_member_replaces_an_earlier_one() {
    let read = parse_json("{\"a\": \"1\", \"b\": \"x\", \"a\": \"2\"}").unwrap();
    assert_eq!(read.get("a"), Some(&text("2")));
    let built = Json::Object(vec![
        ("a".to_string(), text("1")),
        ("b".to_string(), text("x")),
        ("a".to_string(), text("2")),
    ]);
    assert_eq!(built.get("a"), Some(&text("2")));
    assert_eq!(built.get("b"), Some(&text("x")));
    assert_eq!(built.get("c"), None);
}

#[test]
fn parts_are_looked_up_by_kind() {
    let doc = parse_json("{\"s\": \"t\", \"a\": [1], \"n\": null}").unwrap();
    assert_eq!(doc.text_at("s"), Some("t"));
    assert_eq!(doc.text_at("a"), None);
    assert_eq!(doc.text_at("n"), None);
    assert_eq!(doc.text_at("missing"), None);
    assert_eq!(doc.elements_at("a").map(|v| v.len()), Some(1));
    assert_eq!(doc.elements_at("s"), None);
    assert_eq!(doc.as_str(), None);
    assert_eq!(doc.as_array(), None);
    assert_eq!(text("s").get("s"), None);
    assert_eq!(Json::Array(vec![doc]).get("s"), None);
}

#[test]
fn broken_text_is_refused_with_a_message() {
    assert_eq!(
        parse_json(""),
        Err("EOF while parsing a value at line 1 column 0".to_string())
    );
    assert_eq!(
        parse_json("<html>"),
        Err("expected value at line 1 column 1".to_string())
    );
    assert_eq!(
        parse_json("{} x"),
        Err("trailing characters at line 1 column 4".to_string())
    );
}

#[test]
fn deep_nesting_is_refused() {
    let deep = format!("{}{}", "[".repeat(200), "]".repeat(200));
    assert!(parse_json(&deep).is_err());
    let shallow = format!("{}{}", "[".repeat(100), "]".repeat(100));
    assert!(parse_json(&shallow).is_ok());
}

#[test]
fn errors_are_written_and_read_back() {
    assert_eq!(error_text("boom"), "{\"error\":\"boom\"}");
    let message = "a \"quoted\"\n\\ tab\t — \u{1} 😀";
    let read = parse_json(&error_text(message)).unwrap();
    assert_eq!(
        read,
        Json::Object(vec![("error".to_string(), text(message))])
    );
}
