use vstd::prelude::*;

use crate::text::same_text;

verus! {

/// A JSON value as a service's reply holds it. Numbers keep their text; an
/// object keeps its members in order.
#[derive(Debug)]
pub enum Json {
    Null,
    Bool(bool),
    Number(String),
    Str(String),
    Array(Vec<Json>),
    Object(Vec<(String, Json)>),
}

/// The value of the first member named `key` from index `i` on, if any.
pub open spec fn member_from(members: Seq<(String, Json)>, key: Seq<char>, i: int) -> Option<Json>
    decreases members.len() - i,
{
    if i < 0 || i >= members.len() {
        None
    } else if members[i].0@ == key {
        Some(members[i].1)
    } else {
        member_from(members, key, i + 1)
    }
}

/// `v[key]`: the member named `key` of an object, or `Null` where `v` is no
/// object or has no such member.
pub open spec fn at_key(v: Json, key: Seq<char>) -> Json {
    match v {
        Json::Object(members) => match member_from(members@, key, 0) {
            Some(m) => m,
            None => Json::Null,
        },
        _ => Json::Null,
    }
}

/// `v[i]`: the element at index `i` of an array, or `Null` where `v` is no
/// array or is shorter.
pub open spec fn at_index(v: Json, i: int) -> Json {
    match v {
        Json::Array(items) => if 0 <= i < items@.len() {
            items@[i]
        } else {
            Json::Null
        },
        _ => Json::Null,
    }
}

/// The text of a string value, or the empty text for any other value.
pub open spec fn str_or_empty(v: Json) -> Seq<char> {
    match v {
        Json::Str(s) => s@,
        _ => Seq::empty(),
    }
}

impl Json {
    /// The member named `key`, where `self` is an object that has one.
    pub fn member(&self, key: &str) -> (r: Option<&Json>)
        ensures
            match *self {
                Json::Object(members) => match member_from(members@, key@, 0) {
                    Some(m) => r == Some(&m),
                    None => r is None,
                },
                _ => r is None,
            },
    {
        match self {
            Json::Object(members) => {
                let mut i: usize = 0;
                while i < members.len()
                    invariant
                        *self == Json::Object(*members),
                        i <= members@.len(),
                        member_from(members@, key@, i as int) == member_from(members@, key@, 0),
                    decreases members@.len() - i,
                {
                    if same_text(members[i].0.as_str(), key) {
                        assert(member_from(members@, key@, i as int) == Some(members@[i as int].1));
                        return Some(&members[i].1);
                    }
                    i = i + 1;
                }
                None
            },
            _ => None,
        }
    }

    /// The element at index `i`, where `self` is an array that long.
    pub fn element(&self, i: usize) -> (r: Option<&Json>)
        ensures
            match *self {
                Json::Array(items) => if i < items@.len() {
                    r == Some(&items@[i as int])
                } else {
                    r is None
                },
                _ => r is None,
            },
    {
        match self {
            Json::Array(items) => if i < items.len() {
                Some(&items[i])
            } else {
                None
            },
            _ => None,
        }
    }

    /// The text of a string value.
    pub fn text(&self) -> (r: Option<&str>)
        ensures
            match *self {
                Json::Str(s) => r matches Some(t) && t@ == s@,
                _ => r is None,
            },
    {
        match self {
            Json::Str(s) => Some(s.as_str()),
            _ => None,
        }
    }
}

/// What an OCR reply holds for the pipeline: the text of its first parsed
/// result (empty where the result has no text), or nothing where the reply
/// has no list of results or an empty one.
pub open spec fn ocr_first_text(reply: Json) -> Option<Seq<char>> {
    match at_key(reply, "ParsedResults"@) {
        Json::Array(results) => if results@.len() > 0 {
            Some(str_or_empty(at_key(results@[0], "ParsedText"@)))
        } else {
            None
        },
        _ => None,
    }
}

/// The content of the first choice's message in a chat-completion reply, or
/// the empty text where the reply has none.
pub open spec fn chat_content(reply: Json) -> Seq<char> {
    str_or_empty(at_key(at_key(at_index(at_key(reply, "choices"@), 0), "message"@), "content"@))
}

/// `v[key]` on an exec value.
fn at_key_of<'a>(v: &'a Json, key: &str) -> (r: Option<&'a Json>)
    ensures
        match r {
            Some(m) => at_key(*v, key@) == *m,
            None => at_key(*v, key@) == Json::Null,
        },
{
    v.member(key)
}

/// The text of the first parsed result of an OCR reply, untrimmed.
pub fn ocr_parsed_text(reply: &Json) -> (r: Option<&str>)
    ensures
        match ocr_first_text(*reply) {
            Some(t) => r matches Some(s) && s@ == t,
            None => r is None,
        },
{
    proof {
        reveal_strlit("");
    }
    match at_key_of(reply, "ParsedResults") {
        Some(results) => match results.element(0) {
            Some(first) => match at_key_of(first, "ParsedText") {
                Some(t) => match t.text() {
                    Some(s) => Some(s),
                    None => Some(""),
                },
                None => Some(""),
            },
            None => None,
        },
        None => None,
    }
}

/// The content of the first choice's message in a chat-completion reply.
pub fn chat_reply_content(reply: &Json) -> (r: &str)
    ensures
        r@ == chat_content(*reply),
{
    proof {
        reveal_strlit("");
    }
    let choices = match at_key_of(reply, "choices") {
        Some(c) => c,
        None => return "",
    };
    let first = match choices.element(0) {
        Some(f) => f,
        None => return "",
    };
    let message = match at_key_of(first, "message") {
        Some(m) => m,
        None => return "",
    };
    match at_key_of(message, "content") {
        Some(c) => match c.text() {
            Some(s) => s,
            None => "",
        },
        None => "",
    }
}

} // verus!
