use quelana::error::AssistantError;
use quelana::json::{extract_text, interpret_response, request_body, reply_text, Json, JsonValue, ResponseBody};

fn s(text: &str) -> Json {
    Json { value: JsonValue::Str(text.to_string()), text: format!("{:?}", text) }
}

fn scalar(text: &str) -> Json {
    Json { value: JsonValue::Scalar, text: text.to_string() }
}

fn obj(members: Vec<(&str, Json)>, text: &str) -> Json {
    Json {
        value: JsonValue::Object(members.into_iter().map(|(k, v)| (k.to_string(), v)).collect()),
        text: text.to_string(),
    }
}

fn arr(items: Vec<Json>, text: &str) -> Json {
    Json { value: JsonValue::Array(items), text: text.to_string() }
}

fn body(root: Json, pretty: &str) -> Option<ResponseBody> {
    Some(ResponseBody { root, pretty: pretty.to_string() })
}

#[test]
fn extract_text_prefers_content_then_text_then_output() {
    let v = obj(vec![("content", s("c")), ("output", s("o")), ("text", s("t"))], "{}");
    assert_eq!(extract_text(&v), "c");
    let v = obj(vec![("output", s("o")), ("text", s("t"))], "{}");
    assert_eq!(extract_text(&v), "t");
    let v = obj(vec![("output", s("o"))], "{}");
    assert_eq!(extract_text(&v), "o");
}

#[test]
fn extract_text_joins_string_pieces_of_content_array() {
    let v = obj(
        vec![("content", arr(vec![s("Hel"), scalar("1"), s("lo")], "[\"Hel\",1,\"lo\"]"))],
        "{\"content\":[\"Hel\",1,\"lo\"]}",
    );
    assert_eq!(extract_text(&v), "Hello");
}

#[test]
fn extract_text_falls_back_to_json_text() {
    let v = obj(vec![("parts", arr(vec![], "[]"))], "{\"parts\":[]}");
    assert_eq!(extract_text(&v), "{\"parts\":[]}");
    assert_eq!(extract_text(&scalar("42")), "42");
    assert_eq!(extract_text(&s("plain")), "plain");
}

#[test]
fn reply_keys_are_tried_in_order() {
    let root = obj(vec![("answer", s("a")), ("output", s("o")), ("response", s("r"))], "{}");
    assert_eq!(reply_text(&body(root, "pretty"), &"raw".to_string()), "r");
    let root = obj(vec![("answer", s("a")), ("text", s("t"))], "{}");
    assert_eq!(reply_text(&body(root, "pretty"), &"raw".to_string()), "t");
    let root = obj(
        vec![("answer", s("a")), ("candidates", arr(vec![obj(vec![("text", s("first"))], "{}")], "[]"))],
        "{}",
    );
    assert_eq!(reply_text(&body(root, "pretty"), &"raw".to_string()), "first");
}

#[test]
fn empty_candidates_fall_through() {
    let root = obj(vec![("answer", s("a")), ("candidates", arr(vec![], "[]"))], "{}");
    assert_eq!(reply_text(&body(root, "pretty"), &"raw".to_string()), "a");
}

#[test]
fn unknown_document_is_shown_pretty_and_non_json_as_is() {
    let root = obj(vec![("other", scalar("1"))], "{\"other\":1}");
    assert_eq!(reply_text(&body(root, "{\n  \"other\": 1\n}"), &"raw".to_string()), "{\n  \"other\": 1\n}");
    assert_eq!(reply_text(&None, &"not json".to_string()), "not json");
    let root = arr(vec![s("x")], "[\"x\"]");
    assert_eq!(reply_text(&body(root, "[\n  \"x\"\n]"), &"raw".to_string()), "[\n  \"x\"\n]");
}

#[test]
fn failed_status_quotes_status_and_body() {
    let r = interpret_response(404, "404 Not Found".to_string(), "nope".to_string());
    match r {
        Err(e) => assert_eq!(e.message(), "API returned 404 Not Found: nope. Check your API key and endpoint."),
        Ok(_) => panic!("expected an error"),
    }
    let r = interpret_response(199, "199 <unknown status code>".to_string(), "x".to_string());
    assert!(matches!(r, Err(AssistantError::ApiStatus { .. })));
    let r = interpret_response(299, "299 <unknown status code>".to_string(), "x".to_string());
    assert_eq!(r.unwrap(), "x");
}

#[test]
fn request_body_is_compact_json() {
    let b = request_body("He said \"hi\"\n", 400);
    assert_eq!(
        b,
        "{\"contents\":[{\"parts\":[{\"text\":\"He said \\\"hi\\\"\\n\"}]}],\"generationConfig\":{\"maxOutputTokens\":400}}"
    );
    let parsed: serde_json::Value = serde_json::from_str(&b).unwrap();
    assert_eq!(parsed["contents"][0]["parts"][0]["text"], "He said \"hi\"\n");
    assert_eq!(parsed["generationConfig"]["maxOutputTokens"], 400);
}

#[test]
fn successful_bodies_are_parsed_and_read() {
    let ok = |b: &str| interpret_response(200, "200 OK".to_string(), b.to_string()).unwrap();
    assert_eq!(ok("{\"response\":\"hi\"}"), "hi");
    assert_eq!(ok("{\"candidates\":[{\"content\":{\"parts\":[{\"text\":\"x\"}]}}]}"), "{\"content\":{\"parts\":[{\"text\":\"x\"}]}}");
    assert_eq!(ok("{\"output\":{\"content\":[\"a\",2,\"b\"]}}"), "ab");
    assert_eq!(ok("{\"answer\":[1, 2]}"), "[1,2]");
    assert_eq!(ok("{\"z\":1,\"a\":null}"), "{\n  \"a\": null,\n  \"z\": 1\n}");
    assert_eq!(ok("plain text"), "plain text");
    assert_eq!(ok("42"), "42");
}

#[test]
fn prompt_escaping_matches_serde_json() {
    let prompt = "tab\there \u{1}\u{1f} back\\slash \u{7f} é \u{8}\u{c}\r";
    let b = request_body(prompt, 7);
    let literal = serde_json::to_string(prompt).unwrap();
    assert_eq!(b, format!("{{\"contents\":[{{\"parts\":[{{\"text\":{}}}]}}],\"generationConfig\":{{\"maxOutputTokens\":7}}}}", literal));
    assert!(b.contains("\\u0001\\u001f"));
    assert!(b.contains("tab\\there"));
    assert!(b.contains("\\b\\f\\r"));
}
