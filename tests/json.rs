use ocr_answer::json::{chat_reply_content, ocr_parsed_text, Json};

fn s(t: &str) -> Json {
    Json::Str(t.to_string())
}

fn obj(members: Vec<(&str, Json)>) -> Json {
    Json::Object(members.into_iter().map(|(k, v)| (k.to_string(), v)).collect())
}

#[test]
fn member_finds_the_first_with_the_name() {
    let v = obj(vec![("a", s("1")), ("b", s("2")), ("a", s("3"))]);
    assert!(matches!(v.member("a"), Some(Json::Str(t)) if t == "1"));
    assert!(matches!(v.member("b"), Some(Json::Str(t)) if t == "2"));
    assert!(v.member("c").is_none());
    assert!(s("x").member("a").is_none());
}

#[test]
fn element_and_text() {
    let v = Json::Array(vec![s("x"), Json::Null]);
    assert_eq!(v.element(0).unwrap().text(), Some("x"));
    assert!(v.element(1).unwrap().text().is_none());
    assert!(v.element(2).is_none());
    assert!(Json::Bool(true).element(0).is_none());
}

#[test]
fn ocr_text_of_the_first_result() {
    let reply = obj(vec![(
        "ParsedResults",
        Json::Array(vec![obj(vec![("ParsedText", s(" 2+2=? "))]), obj(vec![("ParsedText", s("no"))])]),
    )]);
    assert_eq!(ocr_parsed_text(&reply), Some(" 2+2=? "));
}

#[test]
fn ocr_result_without_text_is_empty() {
    let reply = obj(vec![("ParsedResults", Json::Array(vec![obj(vec![("ParsedText", Json::Null)])]))]);
    assert_eq!(ocr_parsed_text(&reply), Some(""));
    let reply = obj(vec![("ParsedResults", Json::Array(vec![obj(vec![])]))]);
    assert_eq!(ocr_parsed_text(&reply), Some(""));
}

#[test]
fn ocr_reply_without_results_has_no_text() {
    assert_eq!(ocr_parsed_text(&obj(vec![("ParsedResults", Json::Array(vec![]))])), None);
    assert_eq!(ocr_parsed_text(&obj(vec![("ParsedResults", Json::Null)])), None);
    assert_eq!(ocr_parsed_text(&obj(vec![])), None);
    assert_eq!(ocr_parsed_text(&Json::Array(vec![])), None);
}

#[test]
fn chat_content_of_the_first_choice() {
    let reply = obj(vec![(
        "choices",
        Json::Array(vec![obj(vec![("message", obj(vec![("role", s("assistant")), ("content", s("4"))]))])]),
    )]);
    assert_eq!(chat_reply_content(&reply), "4");
}

#[test]
fn chat_reply_without_content_is_empty() {
    assert_eq!(chat_reply_content(&obj(vec![("choices", Json::Array(vec![]))])), "");
    assert_eq!(chat_reply_content(&obj(vec![])), "");
    let reply = obj(vec![("choices", Json::Array(vec![obj(vec![("message", obj(vec![("content", Json::Null)]))])]))]);
    assert_eq!(chat_reply_content(&reply), "");
}
