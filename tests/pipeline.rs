use ocr_answer::json::Json;
use ocr_answer::pipeline::{
    after_answer_reply, after_ocr_reply, after_text, chat_request_body, decimal_text, failure_text, ocr_form,
    status_line_text,
    replay, start, Action, Event, Outcome, Pipeline, CHAT_URL, OCR_URL,
};

const PROMPT: &str = "Please provide a concise response to this, keeping it short but show your calculations (in LaTeX) and answer in the same language as the input: ";

fn s(t: &str) -> Json {
    Json::Str(t.to_string())
}

fn obj(members: Vec<(&str, Json)>) -> Json {
    Json::Object(members.into_iter().map(|(k, v)| (k.to_string(), v)).collect())
}

fn ocr_reply(text: &str) -> Json {
    obj(vec![("ParsedResults", Json::Array(vec![obj(vec![("ParsedText", s(text))])]))])
}

fn chat_reply(content: &str) -> Json {
    obj(vec![("choices", Json::Array(vec![obj(vec![("message", obj(vec![("content", s(content))]))])]))])
}

fn start_event() -> Event {
    Event::Start {
        args: vec!["ocr".to_string(), "sum.png".to_string()],
        ocr_key: Some("ocr-key".to_string()),
        chat_key: Some("chat-key".to_string()),
    }
}

fn reply(status: u16, body: &str, json: Option<Json>) -> Event {
    Event::Reply { status, body: body.to_string(), json }
}

fn requests(actions: &[Action]) -> (usize, usize) {
    let forms = actions.iter().filter(|a| matches!(a, Action::PostForm { .. })).count();
    let chats = actions.iter().filter(|a| matches!(a, Action::PostJson { .. })).count();
    (forms, chats)
}

fn print(line: &str) -> Action {
    Action::Print { line: line.to_string() }
}

fn print_error(line: &str) -> Action {
    Action::PrintError { line: line.to_string() }
}

#[test]
fn decimal_status_codes() {
    assert_eq!(decimal_text(0), "0");
    assert_eq!(decimal_text(7), "7");
    assert_eq!(decimal_text(500), "500");
    assert_eq!(decimal_text(65535), "65535");
}

#[test]
fn failure_line_names_status_and_body() {
    assert_eq!(failure_text("OCR", 500, "oops"), "OCR request failed with status: 500 Internal Server Error, details: oops");
}

#[test]
fn ocr_form_fields() {
    let form = ocr_form("k", "data:image/png;base64,AA==");
    let expected: Vec<(String, String)> = vec![
        ("apikey", "k"),
        ("base64Image", "data:image/png;base64,AA=="),
        ("language", "auto"),
        ("isOverlayRequired", "false"),
        ("OCREngine", "2"),
    ]
    .into_iter()
    .map(|(a, b)| (a.to_string(), b.to_string()))
    .collect();
    assert_eq!(form, expected);
}

#[test]
fn chat_body_wraps_the_text_in_the_prompt() {
    let body = chat_request_body("2+2=?");
    let expected = format!(
        "{{\"model\":\"qwen-qwq-32b\",\"messages\":[{{\"role\":\"user\",\"content\":\"{}2+2=?\"}}],\"temperature\":0,\"max_tokens\":6000}}",
        PROMPT
    );
    assert_eq!(body, expected);
}

#[test]
fn chat_body_escapes_the_text() {
    let body = chat_request_body("say \"hi\"\n");
    assert!(body.contains("say \\\"hi\\\"\\n\"}]"));
}

#[test]
fn start_without_path_is_a_usage_error() {
    let (phase, actions) = start(vec!["ocr".to_string()], Some("a".to_string()), Some("b".to_string()));
    assert_eq!(
        actions,
        vec![
            print_error("Please provide the path to the image file as a command-line argument."),
            Action::Exit { outcome: Outcome::MissingArgument },
        ]
    );
    assert!(Pipeline { phase }.outcome() == Some(Outcome::MissingArgument));
}

#[test]
fn missing_chat_key_fails_before_any_request() {
    let events = vec![
        Event::Start { args: vec!["ocr".to_string(), "a.png".to_string()], ocr_key: Some("k".to_string()), chat_key: None },
        Event::FileRead { bytes: vec![1, 2, 3] },
        reply(200, "{}", Some(ocr_reply("2+2=?"))),
    ];
    let (_, actions) = replay(events);
    assert_eq!(
        actions,
        vec![
            print_error("GROQ_API_KEY environment variable is not set."),
            Action::Exit { outcome: Outcome::MissingCredential },
        ]
    );
}

#[test]
fn empty_keys_count_as_missing() {
    let (_, actions) = start(
        vec!["ocr".to_string(), "a.png".to_string()],
        Some(String::new()),
        Some("chat".to_string()),
    );
    assert_eq!(
        actions,
        vec![
            print_error("OCR_SPACE_API_KEY environment variable is not set."),
            Action::Exit { outcome: Outcome::MissingCredential },
        ]
    );
}

#[test]
fn start_reads_the_image() {
    let mut p = Pipeline::new();
    let actions = p.handle(start_event());
    assert_eq!(actions, vec![Action::ReadFile { path: "sum.png".to_string() }]);
    let actions = p.handle(Event::FileRead { bytes: b"hello".to_vec() });
    assert_eq!(
        actions,
        vec![Action::PostForm { url: OCR_URL.to_string(), fields: ocr_form("ocr-key", "data:image/png;base64,aGVsbG8=") }]
    );
    assert!(p.outcome().is_none());
}

#[test]
fn unreadable_file_ends_the_run() {
    let (_, actions) = replay(vec![start_event(), Event::FileError { reason: "not found".to_string() }]);
    assert_eq!(
        actions,
        vec![
            Action::ReadFile { path: "sum.png".to_string() },
            print_error("Could not read the image file: not found"),
            Action::Exit { outcome: Outcome::FileUnreadable },
        ]
    );
}

#[test]
fn empty_ocr_results_print_no_text_and_skip_the_model() {
    let events = vec![
        start_event(),
        Event::FileRead { bytes: vec![0x89, 0x50] },
        reply(200, "{\"ParsedResults\":[]}", Some(obj(vec![("ParsedResults", Json::Array(vec![]))]))),
        reply(200, "", Some(chat_reply("4"))),
    ];
    let (phase, actions) = replay(events);
    assert_eq!(requests(&actions), (1, 0));
    assert!(actions.contains(&print_error("No text found in the OCR response")));
    assert_eq!(actions.last(), Some(&Action::Exit { outcome: Outcome::NoText }));
    assert!(Pipeline { phase }.outcome() == Some(Outcome::NoText));
}

#[test]
fn blank_ocr_text_prints_no_text_and_skips_the_model() {
    let events = vec![start_event(), Event::FileRead { bytes: vec![1] }, reply(200, "", Some(ocr_reply(" \r\n\t ")))];
    let (_, actions) = replay(events);
    assert_eq!(requests(&actions), (1, 0));
    assert_eq!(
        actions[2..].to_vec(),
        vec![print("No text was extracted from the image."), Action::Exit { outcome: Outcome::NoText }]
    );
}

#[test]
fn ocr_failure_prints_status_and_body_and_skips_the_model() {
    let events = vec![start_event(), Event::FileRead { bytes: vec![1] }, reply(500, "server exploded", None)];
    let (_, actions) = replay(events);
    assert_eq!(requests(&actions), (1, 0));
    assert_eq!(
        actions[2..].to_vec(),
        vec![
            print_error("OCR request failed with status: 500 Internal Server Error, details: server exploded"),
            Action::Exit { outcome: Outcome::ExtractorFailed },
        ]
    );
}

#[test]
fn extracted_text_then_final_answer() {
    let events = vec![
        start_event(),
        Event::FileRead { bytes: vec![1, 2] },
        reply(200, "", Some(ocr_reply("2+2=?"))),
        reply(200, "", Some(chat_reply("4"))),
    ];
    let (_, actions) = replay(events);
    assert_eq!(requests(&actions), (1, 1));
    assert_eq!(
        actions[2..].to_vec(),
        vec![
            print("\nExtracted text from image: 2+2=?\n"),
            Action::PostJson {
                url: CHAT_URL.to_string(),
                authorization: "Bearer chat-key".to_string(),
                body: chat_request_body("2+2=?"),
            },
            print("Final answer: 4"),
            Action::Exit { outcome: Outcome::Answered },
        ]
    );
}

#[test]
fn ocr_text_is_trimmed() {
    let (_, actions) = after_ocr_reply("k", 200, "", &Some(ocr_reply("  2+2=?\n")));
    assert_eq!(actions[0], print("\nExtracted text from image: 2+2=?\n"));
}

#[test]
fn after_text_with_text_asks_the_model() {
    let (_, actions) = after_text("key", "x");
    assert_eq!(actions.len(), 2);
    assert_eq!(actions[0], print("\nExtracted text from image: x\n"));
    let (_, none) = after_text("key", "");
    assert_eq!(none[0], print("No text was extracted from the image."));
}

#[test]
fn model_failure_prints_status_and_body() {
    let (_, actions) = after_answer_reply(429, "slow down", &None);
    assert_eq!(
        actions,
        vec![
            print_error("Text model request failed with status: 429 Too Many Requests, details: slow down"),
            Action::Exit { outcome: Outcome::ResponderFailed },
        ]
    );
}

#[test]
fn model_reply_without_content_prints_an_empty_answer() {
    let (_, actions) = after_answer_reply(200, "{}", &Some(obj(vec![])));
    assert_eq!(actions, vec![print("Final answer: "), Action::Exit { outcome: Outcome::Answered }]);
}

#[test]
fn malformed_replies_end_the_run() {
    let (_, actions) = after_ocr_reply("k", 200, "<html>", &None);
    assert_eq!(actions[1], Action::Exit { outcome: Outcome::MalformedReply });
    let (_, actions) = after_answer_reply(204, "", &None);
    assert_eq!(actions[1], Action::Exit { outcome: Outcome::MalformedReply });
}

#[test]
fn send_errors_end_the_run() {
    let events = vec![
        start_event(),
        Event::FileRead { bytes: vec![1] },
        Event::SendError { reason: "dns".to_string() },
    ];
    let (_, actions) = replay(events);
    assert_eq!(actions[2..].to_vec(), vec![print_error("Request failed: dns"), Action::Exit { outcome: Outcome::SendFailed }]);
}

#[test]
fn unexpected_events_change_nothing() {
    let mut p = Pipeline::new();
    assert!(p.handle(Event::FileRead { bytes: vec![] }).is_empty());
    assert!(p.handle(reply(200, "", None)).is_empty());
    assert!(p.outcome().is_none());
    assert_eq!(p.handle(start_event()).len(), 1);
}

#[test]
fn same_events_same_output() {
    let events = || {
        vec![
            start_event(),
            Event::FileRead { bytes: b"image".to_vec() },
            reply(200, "", Some(ocr_reply("2+2=?"))),
            reply(200, "", Some(chat_reply("4"))),
        ]
    };
    let (_, first) = replay(events());
    let (_, second) = replay(events());
    assert_eq!(first, second);
}

#[test]
fn exit_codes() {
    assert_eq!(Outcome::Answered.exit_code(), 0);
    assert_eq!(Outcome::NoText.exit_code(), 0);
    assert_eq!(Outcome::MissingArgument.exit_code(), 2);
    assert_eq!(Outcome::MissingCredential.exit_code(), 2);
    assert_eq!(Outcome::FileUnreadable.exit_code(), 1);
    assert_eq!(Outcome::ExtractorFailed.exit_code(), 3);
    assert_eq!(Outcome::ResponderFailed.exit_code(), 3);
    assert_eq!(Outcome::SendFailed.exit_code(), 3);
    assert_eq!(Outcome::MalformedReply.exit_code(), 3);
}

#[test]
fn status_lines_carry_the_reason_phrase() {
    assert_eq!(status_line_text(200), "200 OK");
    assert_eq!(status_line_text(404), "404 Not Found");
    assert_eq!(status_line_text(599), "599 <unknown status code>");
    assert_eq!(status_line_text(42), "42 <unknown status code>");
}

#[test]
fn ocr_failure_of_a_named_image_skips_the_model() {
    let events = vec![
        Event::Start {
            args: vec!["ocr".to_string(), "scan.png".to_string()],
            ocr_key: Some("ocr-key".to_string()),
            chat_key: Some("chat-key".to_string()),
        },
        Event::FileRead { bytes: b"img".to_vec() },
        reply(500, "upstream exploded", None),
    ];
    let (_, actions) = replay(events);
    assert_eq!(requests(&actions), (1, 0));
    match &actions[1] {
        Action::PostForm { fields, .. } => assert!(fields[1].1.starts_with("data:image/png;base64,")),
        other => panic!("expected the OCR request, got {:?}", other),
    }
    assert!(actions.contains(&print_error(
        "OCR request failed with status: 500 Internal Server Error, details: upstream exploded"
    )));
}

#[test]
fn chat_body_escapes_control_characters() {
    let body = chat_request_body("a\u{1}b\tc\\d\u{e9}");
    assert!(body.contains("a\\u0001b\\tc\\\\d\u{e9}\"}]"));
}
