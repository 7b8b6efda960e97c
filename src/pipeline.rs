use vstd::prelude::*;

use crate::data_url::{base64_of, data_url, encode_image};
use crate::json::{chat_content, chat_reply_content, ocr_first_text, ocr_parsed_text, Json};
use crate::mime::mime_for_path;
use crate::text::joined;

verus! {

/// Where the OCR service takes its requests.
pub const OCR_URL: &'static str = "https://api.ocr.space/parse/image";

/// Where the chat model takes its requests.
pub const CHAT_URL: &'static str = "https://api.groq.com/openai/v1/chat/completions";

/// The environment variable that holds the OCR service's key.
pub const OCR_KEY_VAR: &'static str = "OCR_SPACE_API_KEY";

/// The environment variable that holds the chat model's key.
pub const CHAT_KEY_VAR: &'static str = "GROQ_API_KEY";

// ---------------------------------------------------------------------------
// Text of the outside services
// ---------------------------------------------------------------------------

/// Whether a character has the Unicode `White_Space` property.
pub open spec fn is_white_space(c: char) -> bool {
    let n = c as u32;
    (0x9 <= n <= 0xD) || n == 0x20 || n == 0x85 || n == 0xA0 || n == 0x1680 || (0x2000 <= n
        <= 0x200A) || n == 0x2028 || n == 0x2029 || n == 0x202F || n == 0x205F || n == 0x3000
}

/// Whether every character of a text is white space (an empty text is).
pub open spec fn all_white_space(s: Seq<char>) -> bool {
    forall|k: int| 0 <= k < s.len() ==> is_white_space(#[trigger] s[k])
}

/// The text with the white space at both ends removed.
pub uninterp spec fn trimmed(s: Seq<char>) -> Seq<char>;

/// Relies on `str::trim`: what it removes (the characters that
/// `char::is_whitespace`, the Unicode `White_Space` property, accepts, at
/// both ends) depends on the characters alone. A text of white space alone
/// leaves nothing, and what is left neither starts nor ends with white space.
#[verifier::external_body]
fn trim_text<'a>(s: &'a str) -> (r: &'a str)
    ensures
        r@ == trimmed(s@),
        all_white_space(s@) ==> r@.len() == 0,
        r@.len() > 0 ==> !is_white_space(r@[0]) && !is_white_space(r@[r@.len() - 1]),
{
    s.trim()
}

/// The lower-case hexadecimal digit of `d`, for `d` below sixteen.
pub open spec fn hex_digit(d: nat) -> char {
    if d < 10 {
        digit_char(d)
    } else if d == 10 {
        'a'
    } else if d == 11 {
        'b'
    } else if d == 12 {
        'c'
    } else if d == 13 {
        'd'
    } else if d == 14 {
        'e'
    } else {
        'f'
    }
}

/// A character inside a JSON string literal: quote and backslash escaped,
/// the usual short escapes for backspace, tab, line feed, form feed and
/// carriage return, `\u00XX` for the other control characters, and any other
/// character as it is.
pub open spec fn json_escaped_char(c: char) -> Seq<char> {
    let n = c as u32;
    if c == '"' {
        seq!['\\', '"']
    } else if c == '\\' {
        seq!['\\', '\\']
    } else if n == 0x8 {
        seq!['\\', 'b']
    } else if n == 0x9 {
        seq!['\\', 't']
    } else if n == 0xA {
        seq!['\\', 'n']
    } else if n == 0xC {
        seq!['\\', 'f']
    } else if n == 0xD {
        seq!['\\', 'r']
    } else if n < 0x20 {
        seq!['\\', 'u', '0', '0', hex_digit((n / 16) as nat), hex_digit((n % 16) as nat)]
    } else {
        seq![c]
    }
}

/// The characters of a text, each escaped for a JSON string literal.
pub open spec fn json_escaped(s: Seq<char>) -> Seq<char>
    decreases s.len(),
{
    if s.len() == 0 {
        Seq::empty()
    } else {
        json_escaped_char(s[0]) + json_escaped(s.drop_first())
    }
}

/// The JSON string literal of a text: quoted, with its special characters
/// escaped.
pub open spec fn json_quoted(s: Seq<char>) -> Seq<char> {
    seq!['"'] + json_escaped(s) + seq!['"']
}

/// Relies on `serde_json::to_string` on a `str`, which writes the text
/// between quotes through serde_json's escape table. Writing it into memory
/// cannot fail, so the default is never taken.
#[verifier::external_body]
fn json_string(s: &str) -> (r: String)
    ensures
        r@ == json_quoted(s@),
{
    serde_json::to_string(s).unwrap_or_default()
}

/// The canonical reason phrase of an HTTP status code, where it has one.
pub uninterp spec fn reason_of(status: u16) -> Option<Seq<char>>;

/// Relies on `reqwest::StatusCode::from_u16` and `canonical_reason`: the
/// phrase depends on the code alone; a code outside 100 to 999 is no status
/// code and has none.
#[verifier::external_body]
fn canonical_reason(status: u16) -> (r: Option<&'static str>)
    ensures
        match r {
            Some(t) => reason_of(status) == Some(t@),
            None => reason_of(status) is None,
        },
{
    match reqwest::StatusCode::from_u16(status) {
        Ok(code) => code.canonical_reason(),
        Err(_) => None,
    }
}

// ---------------------------------------------------------------------------
// Numbers as text
// ---------------------------------------------------------------------------

/// The decimal digit of `d`, for `d` below ten.
pub open spec fn digit_char(d: nat) -> char {
    if d == 0 {
        '0'
    } else if d == 1 {
        '1'
    } else if d == 2 {
        '2'
    } else if d == 3 {
        '3'
    } else if d == 4 {
        '4'
    } else if d == 5 {
        '5'
    } else if d == 6 {
        '6'
    } else if d == 7 {
        '7'
    } else if d == 8 {
        '8'
    } else {
        '9'
    }
}

/// `n` written in decimal, without leading zeros.
pub open spec fn decimal(n: nat) -> Seq<char>
    decreases n,
{
    if n < 10 {
        seq![digit_char(n)]
    } else {
        decimal(n / 10) + seq![digit_char(n % 10)]
    }
}

fn digit_text(d: u16) -> (r: &'static str)
    requires
        d < 10,
    ensures
        r@ == seq![digit_char(d as nat)],
{
    proof {
        reveal_strlit("0");
        reveal_strlit("1");
        reveal_strlit("2");
        reveal_strlit("3");
        reveal_strlit("4");
        reveal_strlit("5");
        reveal_strlit("6");
        reveal_strlit("7");
        reveal_strlit("8");
        reveal_strlit("9");
    }
    let r = if d == 0 {
        "0"
    } else if d == 1 {
        "1"
    } else if d == 2 {
        "2"
    } else if d == 3 {
        "3"
    } else if d == 4 {
        "4"
    } else if d == 5 {
        "5"
    } else if d == 6 {
        "6"
    } else if d == 7 {
        "7"
    } else if d == 8 {
        "8"
    } else {
        "9"
    };
    assert(r@ =~= seq![digit_char(d as nat)]);
    r
}

/// `n` written in decimal.
pub fn decimal_text(n: u16) -> (r: String)
    ensures
        r@ == decimal(n as nat),
    decreases n,
{
    if n < 10 {
        String::from_str(digit_text(n))
    } else {
        let head = decimal_text(n / 10);
        joined(head.as_str(), digit_text(n % 10))
    }
}

// ---------------------------------------------------------------------------
// Requests
// ---------------------------------------------------------------------------

/// The form fields of an OCR request for an image given as a data URL.
pub open spec fn ocr_fields(key: Seq<char>, image: Seq<char>) -> Seq<(Seq<char>, Seq<char>)> {
    seq![
        ("apikey"@, key),
        ("base64Image"@, image),
        ("language"@, "auto"@),
        ("isOverlayRequired"@, "false"@),
        ("OCREngine"@, "2"@),
    ]
}

/// The views of a list of form fields.
pub open spec fn field_views(fields: Seq<(String, String)>) -> Seq<(Seq<char>, Seq<char>)> {
    fields.map_values(|f: (String, String)| (f.0@, f.1@))
}

fn field(name: &str, value: &str) -> (r: (String, String))
    ensures
        r.0@ == name@,
        r.1@ == value@,
{
    (String::from_str(name), String::from_str(value))
}

/// The form of an OCR request: the key, the image, automatic language
/// detection, no text overlay, and the second recognition engine.
pub fn ocr_form(key: &str, image: &str) -> (r: Vec<(String, String)>)
    ensures
        field_views(r@) == ocr_fields(key@, image@),
{
    let mut r: Vec<(String, String)> = Vec::new();
    r.push(field("apikey", key));
    r.push(field("base64Image", image));
    r.push(field("language", "auto"));
    r.push(field("isOverlayRequired", "false"));
    r.push(field("OCREngine", "2"));
    assert(field_views(r@) =~= ocr_fields(key@, image@));
    r
}

/// The instruction sent to the chat model with the extracted text.
pub open spec fn answer_prompt(text: Seq<char>) -> Seq<char> {
    "Please provide a concise response to this, keeping it short but show your calculations (in LaTeX) and answer in the same language as the input: "@
        + text
}

/// The JSON body of the chat request for the extracted text: one user
/// message, deterministic sampling, and room for worked calculations.
pub open spec fn chat_body(text: Seq<char>) -> Seq<char> {
    "{\"model\":\"qwen-qwq-32b\",\"messages\":[{\"role\":\"user\",\"content\":"@ + json_quoted(
        answer_prompt(text),
    ) + "}],\"temperature\":0,\"max_tokens\":6000}"@
}

/// The JSON body of the chat request for the extracted text.
pub fn chat_request_body(text: &str) -> (r: String)
    ensures
        r@ == chat_body(text@),
{
    let prompt = joined(
        "Please provide a concise response to this, keeping it short but show your calculations (in LaTeX) and answer in the same language as the input: ",
        text,
    );
    let quoted = json_string(prompt.as_str());
    let head = joined(
        "{\"model\":\"qwen-qwq-32b\",\"messages\":[{\"role\":\"user\",\"content\":",
        quoted.as_str(),
    );
    joined(head.as_str(), "}],\"temperature\":0,\"max_tokens\":6000}")
}

/// The value of the `Authorization` header for a key.
pub open spec fn bearer(key: Seq<char>) -> Seq<char> {
    "Bearer "@ + key
}

// ---------------------------------------------------------------------------
// The pipeline
// ---------------------------------------------------------------------------

/// How a run ended.
#[derive(Clone, Copy, Debug, PartialEq, Eq, Structural)]
pub enum Outcome {
    /// The chat model answered.
    Answered,
    /// The image held no text.
    NoText,
    /// No image path was given.
    MissingArgument,
    /// A required key is not configured.
    MissingCredential,
    /// The image file could not be read.
    FileUnreadable,
    /// The OCR service answered with a failure status.
    ExtractorFailed,
    /// The chat model answered with a failure status.
    ResponderFailed,
    /// A request could not be sent or its reply not received.
    SendFailed,
    /// A service answered with success but not with JSON.
    MalformedReply,
}

/// The process exit status of each outcome: zero where the run did what was
/// asked of it (an answer, or the finding that there was no text).
pub open spec fn exit_status(o: Outcome) -> u8 {
    match o {
        Outcome::Answered => 0,
        Outcome::NoText => 0,
        Outcome::MissingArgument => 2,
        Outcome::MissingCredential => 2,
        Outcome::FileUnreadable => 1,
        Outcome::ExtractorFailed => 3,
        Outcome::ResponderFailed => 3,
        Outcome::SendFailed => 3,
        Outcome::MalformedReply => 3,
    }
}

impl Outcome {
    /// The process exit status of this outcome.
    pub fn exit_code(&self) -> (r: u8)
        ensures
            r == exit_status(*self),
    {
        match self {
            Outcome::Answered => 0,
            Outcome::NoText => 0,
            Outcome::MissingArgument => 2,
            Outcome::MissingCredential => 2,
            Outcome::FileUnreadable => 1,
            Outcome::ExtractorFailed => 3,
            Outcome::ResponderFailed => 3,
            Outcome::SendFailed => 3,
            Outcome::MalformedReply => 3,
        }
    }
}

/// What the pipeline waits for.
pub enum Phase {
    /// The start of a run.
    Ready,
    /// The contents of the image file.
    Loading { path: String, ocr_key: String, chat_key: String },
    /// The OCR service's reply.
    Extracting { chat_key: String },
    /// The chat model's reply.
    Answering,
    /// Nothing: the run is over.
    Done { outcome: Outcome },
}

/// A phase as plain values.
pub enum PhaseView {
    Ready,
    Loading { path: Seq<char>, ocr_key: Seq<char>, chat_key: Seq<char> },
    Extracting { chat_key: Seq<char> },
    Answering,
    Done { outcome: Outcome },
}

impl View for Phase {
    type V = PhaseView;

    open spec fn view(&self) -> PhaseView {
        match self {
            Phase::Ready => PhaseView::Ready,
            Phase::Loading { path, ocr_key, chat_key } => PhaseView::Loading {
                path: path@,
                ocr_key: ocr_key@,
                chat_key: chat_key@,
            },
            Phase::Extracting { chat_key } => PhaseView::Extracting { chat_key: chat_key@ },
            Phase::Answering => PhaseView::Answering,
            Phase::Done { outcome } => PhaseView::Done { outcome: *outcome },
        }
    }
}

/// What the driver of the pipeline reports.
#[derive(Debug)]
pub enum Event {
    /// The run begins, with the command-line arguments (the program's name
    /// first) and the configured keys.
    Start { args: Vec<String>, ocr_key: Option<String>, chat_key: Option<String> },
    /// The image file was read.
    FileRead { bytes: Vec<u8> },
    /// The image file could not be read.
    FileError { reason: String },
    /// A service replied; `json` is the body parsed as JSON, where it is JSON.
    Reply { status: u16, body: String, json: Option<Json> },
    /// A request could not be sent or its reply not received.
    SendError { reason: String },
}

/// What the pipeline asks its driver to do.
#[derive(Clone, Debug, PartialEq)]
pub enum Action {
    /// Read the file at `path`.
    ReadFile { path: String },
    /// Post a URL-encoded form.
    PostForm { url: String, fields: Vec<(String, String)> },
    /// Post a JSON body with an `Authorization` header.
    PostJson { url: String, authorization: String, body: String },
    /// Print a line to standard output.
    Print { line: String },
    /// Print a line to standard error.
    PrintError { line: String },
    /// End the process with this outcome.
    Exit { outcome: Outcome },
}

/// An action as plain values.
pub enum ActionView {
    ReadFile { path: Seq<char> },
    PostForm { url: Seq<char>, fields: Seq<(Seq<char>, Seq<char>)> },
    PostJson { url: Seq<char>, authorization: Seq<char>, body: Seq<char> },
    Print { line: Seq<char> },
    PrintError { line: Seq<char> },
    Exit { outcome: Outcome },
}

impl View for Action {
    type V = ActionView;

    open spec fn view(&self) -> ActionView {
        match self {
            Action::ReadFile { path } => ActionView::ReadFile { path: path@ },
            Action::PostForm { url, fields } => ActionView::PostForm {
                url: url@,
                fields: field_views(fields@),
            },
            Action::PostJson { url, authorization, body } => ActionView::PostJson {
                url: url@,
                authorization: authorization@,
                body: body@,
            },
            Action::Print { line } => ActionView::Print { line: line@ },
            Action::PrintError { line } => ActionView::PrintError { line: line@ },
            Action::Exit { outcome } => ActionView::Exit { outcome: *outcome },
        }
    }
}

/// The views of a list of actions.
pub open spec fn views(actions: Seq<Action>) -> Seq<ActionView> {
    actions.map_values(|a: Action| a@)
}

/// Whether an HTTP status reports success.
pub open spec fn is_success(status: u16) -> bool {
    200 <= status <= 299
}

/// Whether a configured key is there and not empty.
pub open spec fn has_key(key: Option<String>) -> bool {
    key matches Some(k) && k@.len() > 0
}

/// A status code as HTTP shows it: the number and its reason phrase.
pub open spec fn status_text(status: u16) -> Seq<char> {
    decimal(status as nat) + " "@ + match reason_of(status) {
        Some(t) => t,
        None => "<unknown status code>"@,
    }
}

/// The line that reports a failure status of a service.
pub open spec fn failure_line(service: Seq<char>, status: u16, body: Seq<char>) -> Seq<char> {
    service + " request failed with status: "@ + status_text(status) + ", details: "@ + body
}

/// Print a line to standard error and end with `o`.
pub open spec fn fail_with(line: Seq<char>, o: Outcome) -> (PhaseView, Seq<ActionView>) {
    (
        PhaseView::Done { outcome: o },
        seq![ActionView::PrintError { line }, ActionView::Exit { outcome: o }],
    )
}

/// The step that starts a run.
pub open spec fn start_step(args: Seq<String>, ocr_key: Option<String>, chat_key: Option<String>) -> (
    PhaseView,
    Seq<ActionView>,
) {
    if args.len() < 2 {
        fail_with(
            "Please provide the path to the image file as a command-line argument."@,
            Outcome::MissingArgument,
        )
    } else if !has_key(chat_key) {
        fail_with(
            "GROQ_API_KEY environment variable is not set."@,
            Outcome::MissingCredential,
        )
    } else if !has_key(ocr_key) {
        fail_with(
            "OCR_SPACE_API_KEY environment variable is not set."@,
            Outcome::MissingCredential,
        )
    } else {
        (
            PhaseView::Loading {
                path: args[1]@,
                ocr_key: ocr_key.unwrap()@,
                chat_key: chat_key.unwrap()@,
            },
            seq![ActionView::ReadFile { path: args[1]@ }],
        )
    }
}

/// The step once the text of the image is known, trimmed.
pub open spec fn text_step(chat_key: Seq<char>, text: Seq<char>) -> (PhaseView, Seq<ActionView>) {
    if text.len() == 0 {
        (
            PhaseView::Done { outcome: Outcome::NoText },
            seq![
                ActionView::Print { line: "No text was extracted from the image."@ },
                ActionView::Exit { outcome: Outcome::NoText },
            ],
        )
    } else {
        (
            PhaseView::Answering,
            seq![
                ActionView::Print { line: "\nExtracted text from image: "@ + text + "\n"@ },
                ActionView::PostJson {
                    url: CHAT_URL@,
                    authorization: bearer(chat_key),
                    body: chat_body(text),
                },
            ],
        )
    }
}

/// The step on the OCR service's reply.
pub open spec fn ocr_reply_step(chat_key: Seq<char>, status: u16, body: Seq<char>, json: Option<Json>) -> (
    PhaseView,
    Seq<ActionView>,
) {
    if !is_success(status) {
        fail_with(failure_line("OCR"@, status, body), Outcome::ExtractorFailed)
    } else {
        match json {
            None => fail_with("The OCR reply is not valid JSON."@, Outcome::MalformedReply),
            Some(reply) => match ocr_first_text(reply) {
                None => fail_with("No text found in the OCR response"@, Outcome::NoText),
                Some(t) => text_step(chat_key, trimmed(t)),
            },
        }
    }
}

/// The step on the chat model's reply.
pub open spec fn answer_reply_step(status: u16, body: Seq<char>, json: Option<Json>) -> (
    PhaseView,
    Seq<ActionView>,
) {
    if !is_success(status) {
        fail_with(failure_line("Text model"@, status, body), Outcome::ResponderFailed)
    } else {
        match json {
            None => fail_with("The text model reply is not valid JSON."@, Outcome::MalformedReply),
            Some(reply) => (
                PhaseView::Done { outcome: Outcome::Answered },
                seq![
                    ActionView::Print { line: "Final answer: "@ + chat_content(reply) },
                    ActionView::Exit { outcome: Outcome::Answered },
                ],
            ),
        }
    }
}

/// The next phase and the actions to perform, from a phase and an event. An
/// event that the phase does not wait for changes nothing.
pub open spec fn step_spec(p: PhaseView, e: Event) -> (PhaseView, Seq<ActionView>) {
    match (p, e) {
        (PhaseView::Ready, Event::Start { args, ocr_key, chat_key }) => start_step(
            args@,
            ocr_key,
            chat_key,
        ),
        (PhaseView::Loading { path, ocr_key, chat_key }, Event::FileRead { bytes }) => (
            PhaseView::Extracting { chat_key },
            seq![
                ActionView::PostForm {
                    url: OCR_URL@,
                    fields: ocr_fields(ocr_key, data_url(mime_for_path(path), base64_of(bytes@))),
                },
            ],
        ),
        (PhaseView::Loading { .. }, Event::FileError { reason }) => fail_with(
            "Could not read the image file: "@ + reason@,
            Outcome::FileUnreadable,
        ),
        (PhaseView::Extracting { chat_key }, Event::Reply { status, body, json }) => ocr_reply_step(
            chat_key,
            status,
            body@,
            json,
        ),
        (PhaseView::Answering, Event::Reply { status, body, json }) => answer_reply_step(
            status,
            body@,
            json,
        ),
        (PhaseView::Extracting { .. }, Event::SendError { reason }) => fail_with(
            "Request failed: "@ + reason@,
            Outcome::SendFailed,
        ),
        (PhaseView::Answering, Event::SendError { reason }) => fail_with(
            "Request failed: "@ + reason@,
            Outcome::SendFailed,
        ),
        _ => (p, Seq::empty()),
    }
}

fn one(a: Action) -> (r: Vec<Action>)
    ensures
        views(r@) == seq![a@],
{
    let mut r: Vec<Action> = Vec::new();
    r.push(a);
    assert(views(r@) =~= seq![a@]);
    r
}

fn two(a: Action, b: Action) -> (r: Vec<Action>)
    ensures
        views(r@) == seq![a@, b@],
{
    let mut r: Vec<Action> = Vec::new();
    r.push(a);
    r.push(b);
    assert(views(r@) =~= seq![a@, b@]);
    r
}

fn fail_exec(line: String, o: Outcome) -> (r: (Phase, Vec<Action>))
    ensures
        (r.0@, views(r.1@)) == fail_with(line@, o),
{
    (Phase::Done { outcome: o }, two(Action::PrintError { line }, Action::Exit { outcome: o }))
}

fn has_key_exec(key: &Option<String>) -> (r: bool)
    ensures
        r == has_key(*key),
{
    match key {
        Some(k) => !k.as_str().is_empty(),
        None => false,
    }
}

/// A status code with its reason phrase, as HTTP shows it.
pub fn status_line_text(status: u16) -> (r: String)
    ensures
        r@ == status_text(status),
{
    let code = decimal_text(status);
    let spaced = joined(code.as_str(), " ");
    match canonical_reason(status) {
        Some(reason) => joined(spaced.as_str(), reason),
        None => joined(spaced.as_str(), "<unknown status code>"),
    }
}

/// The line that reports a failure status of a service.
pub fn failure_text(service: &str, status: u16, body: &str) -> (r: String)
    ensures
        r@ == failure_line(service@, status, body@),
{
    let a = joined(service, " request failed with status: ");
    let code = status_line_text(status);
    let b = joined(a.as_str(), code.as_str());
    let c = joined(b.as_str(), ", details: ");
    joined(c.as_str(), body)
}

/// The step that starts a run: it checks the arguments and the keys before
/// anything else happens.
pub fn start(args: Vec<String>, ocr_key: Option<String>, chat_key: Option<String>) -> (r: (
    Phase,
    Vec<Action>,
))
    ensures
        (r.0@, views(r.1@)) == start_step(args@, ocr_key, chat_key),
{
    if args.len() < 2 {
        fail_exec(
            String::from_str("Please provide the path to the image file as a command-line argument."),
            Outcome::MissingArgument,
        )
    } else if !has_key_exec(&chat_key) {
        fail_exec(
            String::from_str("GROQ_API_KEY environment variable is not set."),
            Outcome::MissingCredential,
        )
    } else if !has_key_exec(&ocr_key) {
        fail_exec(
            String::from_str("OCR_SPACE_API_KEY environment variable is not set."),
            Outcome::MissingCredential,
        )
    } else {
        let path = args[1].clone();
        let ocr = match ocr_key {
            Some(k) => k,
            None => String::new(),
        };
        let chat = match chat_key {
            Some(k) => k,
            None => String::new(),
        };
        let read = Action::ReadFile { path: path.clone() };
        (Phase::Loading { path, ocr_key: ocr, chat_key: chat }, one(read))
    }
}

/// The step once the text of the image is known, trimmed: report that there
/// is none, or print it and ask the chat model.
pub fn after_text(chat_key: &str, text: &str) -> (r: (Phase, Vec<Action>))
    ensures
        (r.0@, views(r.1@)) == text_step(chat_key@, text@),
{
    if text.is_empty() {
        (
            Phase::Done { outcome: Outcome::NoText },
            two(
                Action::Print { line: String::from_str("No text was extracted from the image.") },
                Action::Exit { outcome: Outcome::NoText },
            ),
        )
    } else {
        let a = joined("\nExtracted text from image: ", text);
        let line = joined(a.as_str(), "\n");
        let post = Action::PostJson {
            url: String::from_str(CHAT_URL),
            authorization: joined("Bearer ", chat_key),
            body: chat_request_body(text),
        };
        (Phase::Answering, two(Action::Print { line }, post))
    }
}

/// The step on the OCR service's reply.
pub fn after_ocr_reply(chat_key: &str, status: u16, body: &str, json: &Option<Json>) -> (r: (
    Phase,
    Vec<Action>,
))
    ensures
        (r.0@, views(r.1@)) == ocr_reply_step(chat_key@, status, body@, *json),
        is_success(status) && (*json matches Some(reply) && ocr_first_text(reply) matches Some(t)
            && all_white_space(t)) ==> r.0@ == (PhaseView::Done { outcome: Outcome::NoText })
            && views(r.1@) == seq![
                ActionView::Print { line: "No text was extracted from the image."@ },
                ActionView::Exit { outcome: Outcome::NoText },
            ],
{
    if status < 200 || status > 299 {
        return fail_exec(failure_text("OCR", status, body), Outcome::ExtractorFailed);
    }
    match json {
        None => fail_exec(
            String::from_str("The OCR reply is not valid JSON."),
            Outcome::MalformedReply,
        ),
        Some(reply) => match ocr_parsed_text(reply) {
            None => fail_exec(
                String::from_str("No text found in the OCR response"),
                Outcome::NoText,
            ),
            Some(raw) => after_text(chat_key, trim_text(raw)),
        },
    }
}

/// The step on the chat model's reply.
pub fn after_answer_reply(status: u16, body: &str, json: &Option<Json>) -> (r: (Phase, Vec<Action>))
    ensures
        (r.0@, views(r.1@)) == answer_reply_step(status, body@, *json),
{
    if status < 200 || status > 299 {
        return fail_exec(failure_text("Text model", status, body), Outcome::ResponderFailed);
    }
    match json {
        None => fail_exec(
            String::from_str("The text model reply is not valid JSON."),
            Outcome::MalformedReply,
        ),
        Some(reply) => {
            let line = joined("Final answer: ", chat_reply_content(reply));
            (
                Phase::Done { outcome: Outcome::Answered },
                two(Action::Print { line }, Action::Exit { outcome: Outcome::Answered }),
            )
        },
    }
}

/// Whether `e` is a successful OCR reply, awaited in phase `p`, whose text
/// is white space alone.
pub open spec fn is_blank_ocr_reply(p: PhaseView, e: Event) -> bool {
    &&& p is Extracting
    &&& e matches Event::Reply { status, json: Some(reply), .. }
    &&& is_success(status)
    &&& ocr_first_text(reply) matches Some(t)
    &&& all_white_space(t)
}

/// How a run ends on an OCR text of white space alone.
pub open spec fn blank_text_end() -> (PhaseView, Seq<ActionView>) {
    (
        PhaseView::Done { outcome: Outcome::NoText },
        seq![
            ActionView::Print { line: "No text was extracted from the image."@ },
            ActionView::Exit { outcome: Outcome::NoText },
        ],
    )
}

/// The next phase and the actions to perform, from a phase and an event.
pub fn step(phase: Phase, event: Event) -> (r: (Phase, Vec<Action>))
    ensures
        (r.0@, views(r.1@)) == step_spec(phase@, event),
        is_blank_ocr_reply(phase@, event) ==> (r.0@, views(r.1@)) == blank_text_end(),
{
    match (phase, event) {
        (Phase::Ready, Event::Start { args, ocr_key, chat_key }) => start(args, ocr_key, chat_key),
        (Phase::Loading { path, ocr_key, chat_key }, Event::FileRead { bytes }) => {
            let image = encode_image(path.as_str(), bytes.as_slice());
            let post = Action::PostForm {
                url: String::from_str(OCR_URL),
                fields: ocr_form(ocr_key.as_str(), image.as_str()),
            };
            (Phase::Extracting { chat_key }, one(post))
        },
        (Phase::Loading { .. }, Event::FileError { reason }) => fail_exec(
            joined("Could not read the image file: ", reason.as_str()),
            Outcome::FileUnreadable,
        ),
        (Phase::Extracting { chat_key }, Event::Reply { status, body, json }) => after_ocr_reply(
            chat_key.as_str(),
            status,
            body.as_str(),
            &json,
        ),
        (Phase::Answering, Event::Reply { status, body, json }) => after_answer_reply(
            status,
            body.as_str(),
            &json,
        ),
        (Phase::Extracting { .. }, Event::SendError { reason }) => fail_exec(
            joined("Request failed: ", reason.as_str()),
            Outcome::SendFailed,
        ),
        (Phase::Answering, Event::SendError { reason }) => fail_exec(
            joined("Request failed: ", reason.as_str()),
            Outcome::SendFailed,
        ),
        (p, _) => (p, Vec::new()),
    }
}

/// The phase and all the actions after the events, one by one, from phase `p`.
pub open spec fn run_spec(p: PhaseView, events: Seq<Event>) -> (PhaseView, Seq<ActionView>)
    decreases events.len(),
{
    if events.len() == 0 {
        (p, Seq::empty())
    } else {
        let (q, first) = step_spec(p, events[0]);
        let (last, rest) = run_spec(q, events.drop_first());
        (last, first + rest)
    }
}

/// A run of the pipeline: its driver performs each action that `handle`
/// returns and hands back what came of it.
pub struct Pipeline {
    pub phase: Phase,
}

impl View for Pipeline {
    type V = PhaseView;

    open spec fn view(&self) -> PhaseView {
        self.phase@
    }
}

impl Pipeline {
    /// A pipeline at the start of a run.
    pub fn new() -> (r: Pipeline)
        ensures
            r@ == PhaseView::Ready,
    {
        Pipeline { phase: Phase::Ready }
    }

    /// Takes one event and returns the actions that follow from it.
    pub fn handle(&mut self, event: Event) -> (r: Vec<Action>)
        ensures
            (final(self)@, views(r@)) == step_spec(old(self)@, event),
            is_blank_ocr_reply(old(self)@, event) ==> (final(self)@, views(r@)) == blank_text_end(),
    {
        let mut current = Phase::Ready;
        core::mem::swap(&mut self.phase, &mut current);
        let (next, actions) = step(current, event);
        self.phase = next;
        actions
    }

    /// Whether the run is over, and with which outcome.
    pub fn outcome(&self) -> (r: Option<Outcome>)
        ensures
            match self@ {
                PhaseView::Done { outcome } => r == Some(outcome),
                _ => r is None,
            },
    {
        match &self.phase {
            Phase::Done { outcome } => Some(*outcome),
            _ => None,
        }
    }
}

proof fn lemma_views_concat(a: Seq<Action>, b: Seq<Action>)
    ensures
        views(a + b) == views(a) + views(b),
{
    assert(views(a + b) =~= views(a) + views(b));
}

/// Runs a whole recorded conversation: the events in order from the start of
/// a run, and every action that they led to.
pub fn replay(events: Vec<Event>) -> (r: (Phase, Vec<Action>))
    ensures
        (r.0@, views(r.1@)) == run_spec(PhaseView::Ready, events@),
{
    let ghost all = events@;
    let mut events = events;
    let mut phase = Phase::Ready;
    let mut actions: Vec<Action> = Vec::new();
    while events.len() > 0
        invariant
            run_spec(PhaseView::Ready, all) == (
                run_spec(phase@, events@).0,
                views(actions@) + run_spec(phase@, events@).1,
            ),
        decreases events@.len(),
    {
        let ghost before = events@;
        let ghost acts_before = actions@;
        let e = events.remove(0);
        assert(events@ =~= before.drop_first());
        let (next, mut more) = step(phase, e);
        let ghost more_view = views(more@);
        actions.append(&mut more);
        proof {
            lemma_views_concat(acts_before, more@);
            assert(views(acts_before) + more_view + run_spec(next@, events@).1 =~= views(acts_before)
                + (more_view + run_spec(next@, events@).1));
        }
        phase = next;
    }
    assert(views(actions@) + Seq::empty() =~= views(actions@));
    (phase, actions)
}

/// A finished run stays finished: no event leads to any further action.
pub proof fn lemma_done_is_final(o: Outcome, events: Seq<Event>)
    ensures
        run_spec(PhaseView::Done { outcome: o }, events) == (
            PhaseView::Done { outcome: o },
            Seq::<ActionView>::empty(),
        ),
    decreases events.len(),
{
    if events.len() > 0 {
        lemma_done_is_final(o, events.drop_first());
    }
}

/// Whether an action sends a request to a service.
pub open spec fn is_request(a: ActionView) -> bool {
    a is PostForm || a is PostJson
}

/// Where a key is missing, the run ends at its start, whatever follows: it
/// reads no file and sends no request.
pub proof fn lemma_missing_key_fails_fast(
    args: Vec<String>,
    ocr_key: Option<String>,
    chat_key: Option<String>,
    later: Seq<Event>,
)
    requires
        !has_key(ocr_key) || !has_key(chat_key),
    ensures
        ({
            let (last, actions) = run_spec(
                PhaseView::Ready,
                seq![Event::Start { args, ocr_key, chat_key }] + later,
            );
            &&& last is Done
            &&& last->outcome != Outcome::Answered
            &&& forall|i: int|
                0 <= i < actions.len() ==> !is_request(#[trigger] actions[i])
                    && !(actions[i] is ReadFile)
        }),
{
    let events = seq![Event::Start { args, ocr_key, chat_key }] + later;
    assert(events.drop_first() =~= later);
    let (q, first) = step_spec(PhaseView::Ready, events[0]);
    lemma_done_is_final(q->outcome, later);
}

/// The output of a run is a function of its events: two runs on the same
/// events (the same arguments, keys, file contents and replies) print the
/// same lines, send the same requests and end the same way.
pub proof fn lemma_run_is_deterministic(a: Seq<Event>, b: Seq<Event>)
    requires
        a == b,
    ensures
        run_spec(PhaseView::Ready, a) == run_spec(PhaseView::Ready, b),
{
}

/// Where the OCR service fails, or its reply holds no text, or a text that
/// trims to nothing, the run ends there and the chat model is never asked.
pub proof fn lemma_no_text_no_question(
    chat_key: Seq<char>,
    status: u16,
    body: Seq<char>,
    json: Option<Json>,
)
    requires
        !is_success(status) || json is None || ocr_first_text(json.unwrap()) is None || trimmed(
            ocr_first_text(json.unwrap()).unwrap(),
        ).len() == 0,
    ensures
        ({
            let (next, actions) = ocr_reply_step(chat_key, status, body, json);
            &&& next is Done
            &&& forall|i: int| 0 <= i < actions.len() ==> !is_request(#[trigger] actions[i])
        }),
{
}

/// Where the OCR reply has no list of results, or an empty one, a run with
/// its path and keys in place reads the image, sends it to the OCR service,
/// reports that no text was found and ends, whatever follows: the chat model
/// is never asked.
pub proof fn lemma_empty_results_end_the_run(
    args: Vec<String>,
    ocr_key: Option<String>,
    chat_key: Option<String>,
    bytes: Vec<u8>,
    status: u16,
    body: String,
    reply: Json,
    later: Seq<Event>,
)
    requires
        args@.len() >= 2,
        has_key(ocr_key),
        has_key(chat_key),
        is_success(status),
        ocr_first_text(reply) is None,
    ensures
        run_spec(
            PhaseView::Ready,
            seq![
                Event::Start { args, ocr_key, chat_key },
                Event::FileRead { bytes },
                Event::Reply { status, body, json: Some(reply) },
            ] + later,
        ) == (
            PhaseView::Done { outcome: Outcome::NoText },
            seq![
                ActionView::ReadFile { path: args@[1]@ },
                ActionView::PostForm {
                    url: OCR_URL@,
                    fields: ocr_fields(
                        ocr_key.unwrap()@,
                        data_url(mime_for_path(args@[1]@), base64_of(bytes@)),
                    ),
                },
                ActionView::PrintError { line: "No text found in the OCR response"@ },
                ActionView::Exit { outcome: Outcome::NoText },
            ],
        ),
{
    let e0 = Event::Start { args, ocr_key, chat_key };
    let e1 = Event::FileRead { bytes };
    let e2 = Event::Reply { status, body, json: Some(reply) };
    let all = seq![e0, e1, e2] + later;
    let s1 = all.drop_first();
    let s2 = s1.drop_first();
    let s3 = s2.drop_first();
    assert(s1 =~= seq![e1, e2] + later);
    assert(s2 =~= seq![e2] + later);
    assert(s3 =~= later);
    lemma_done_is_final(Outcome::NoText, later);
    let p1 = step_spec(PhaseView::Ready, e0).0;
    let p2 = step_spec(p1, e1).0;
    assert(run_spec(p2, s2) == step_spec(p2, e2));
    assert(run_spec(p1, s1).1 =~= step_spec(p1, e1).1 + step_spec(p2, e2).1);
    assert(run_spec(PhaseView::Ready, all).1 =~= step_spec(PhaseView::Ready, e0).1 + step_spec(
        p1,
        e1,
    ).1 + step_spec(p2, e2).1);
}

} // verus!
