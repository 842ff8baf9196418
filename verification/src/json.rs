//! Reading the visible output out of one streamed chat-completion chunk.
//!
//! A chunk is a JSON document, held as a [`JsonValue`]. The output sits in the first
//! choice, either in its `delta` (streamed form) or its `message` (whole form), or in
//! its `text` (legacy completion form). Reasoning models put it in
//! `reasoning_content`, `reasoning` or `thought`; tool calls put a function name or
//! its arguments in `tool_calls[0].function`.

use vstd::prelude::*;

use crate::loose::{loose_content, loose_content_of};
use crate::text::{opt_view, push_text};

verus! {

broadcast use vstd::string::group_string_axioms;

/// A JSON document.
pub enum JsonValue {
    Null,
    Bool(bool),
    /// A number, in the textual form of its source.
    Number(String),
    Str(String),
    Array(Vec<JsonValue>),
    /// An object's members, in order. A key names its first member.
    Object(Vec<JsonMember>),
}

/// One member of a JSON object.
pub struct JsonMember {
    pub key: String,
    pub value: JsonValue,
}

/// The value of the first member of `members` named `key`.
pub open spec fn member_value(members: Seq<JsonMember>, key: Seq<char>) -> Option<JsonValue>
    decreases members.len(),
{
    if members.len() == 0 {
        None
    } else if members[0].key@ == key {
        Some(members[0].value)
    } else {
        member_value(members.drop_first(), key)
    }
}

/// The member `key` of `v` when `v` is an object.
pub open spec fn get_field(v: JsonValue, key: Seq<char>) -> Option<JsonValue> {
    match v {
        JsonValue::Object(members) => member_value(members@, key),
        _ => None,
    }
}

/// The string held by the member `key` of `v`, when there is one.
pub open spec fn str_field(v: JsonValue, key: Seq<char>) -> Option<Seq<char>> {
    match get_field(v, key) {
        Some(JsonValue::Str(s)) => Some(s@),
        _ => None,
    }
}

/// The first element of `v` when `v` is a non-empty array.
pub open spec fn first_element(v: Option<JsonValue>) -> Option<JsonValue> {
    match v {
        Some(JsonValue::Array(items)) => if items@.len() > 0 {
            Some(items@[0])
        } else {
            None
        },
        _ => None,
    }
}

/// `o` holds a non-empty text.
pub open spec fn non_empty(o: Option<Seq<char>>) -> bool {
    o matches Some(s) && s.len() > 0
}

/// The visible output of a tool call's `function` object.
pub open spec fn function_output_of(func: JsonValue) -> Option<Seq<char>> {
    if non_empty(str_field(func, "name"@)) {
        Some("[fn:"@ + str_field(func, "name"@).unwrap() + "]"@)
    } else if non_empty(str_field(func, "arguments"@)) {
        str_field(func, "arguments"@)
    } else {
        None
    }
}

/// The first non-empty output held by a `delta` or `message` object: its `content`,
/// `reasoning_content`, `reasoning` or `thought`, else what its first tool call shows.
pub open spec fn delta_content_of(delta: JsonValue) -> Option<Seq<char>> {
    if non_empty(str_field(delta, "content"@)) {
        str_field(delta, "content"@)
    } else if non_empty(str_field(delta, "reasoning_content"@)) {
        str_field(delta, "reasoning_content"@)
    } else if non_empty(str_field(delta, "reasoning"@)) {
        str_field(delta, "reasoning"@)
    } else if non_empty(str_field(delta, "thought"@)) {
        str_field(delta, "thought"@)
    } else {
        match first_element(get_field(delta, "tool_calls"@)) {
            Some(call) => match get_field(call, "function"@) {
                Some(func) => function_output_of(func),
                None => None,
            },
            None => None,
        }
    }
}

/// The output of the first choice of a parsed chunk.
pub open spec fn choice_output_of(choice: JsonValue) -> Option<Seq<char>> {
    let from_delta = match get_field(choice, "delta"@) {
        Some(d) => delta_content_of(d),
        None => None,
    };
    let from_message = match get_field(choice, "message"@) {
        Some(m) => delta_content_of(m),
        None => None,
    };
    if from_delta is Some {
        from_delta
    } else if from_message is Some {
        from_message
    } else if non_empty(str_field(choice, "text"@)) {
        str_field(choice, "text"@)
    } else {
        None
    }
}

/// The output of a data line `data`, whose JSON reading is `parsed` (`None` when it
/// is not JSON): the output of its first choice, else what a loose reading finds.
pub open spec fn chunk_text_of(data: Seq<char>, parsed: Option<JsonValue>) -> Option<Seq<char>> {
    let from_json = match parsed {
        Some(v) => match first_element(get_field(v, "choices"@)) {
            Some(choice) => choice_output_of(choice),
            None => None,
        },
        None => None,
    };
    if from_json is Some {
        from_json
    } else {
        loose_content_of(data)
    }
}

/// What a `delta` or `message` object shows is never empty.
pub proof fn delta_content_non_empty(delta: JsonValue)
    ensures
        delta_content_of(delta) matches Some(t) ==> t.len() > 0,
{
}

/// The output read from a data line, when there is one, is never empty.
pub proof fn chunk_text_non_empty(data: Seq<char>, parsed: Option<JsonValue>)
    ensures
        chunk_text_of(data, parsed) matches Some(t) ==> t.len() > 0,
{
    crate::loose::loose_content_bounded(data);
}

/// The output of a `delta` or `message` object follows a fixed order: `content`,
/// then `reasoning_content`, then `reasoning`, then `thought`; the first of them that
/// holds a non-empty string is the output, whatever the others hold.
pub proof fn delta_content_order(d: JsonValue)
    ensures
        non_empty(str_field(d, "content"@)) ==> delta_content_of(d) == str_field(d, "content"@),
        !non_empty(str_field(d, "content"@)) && non_empty(str_field(d, "reasoning_content"@))
            ==> delta_content_of(d) == str_field(d, "reasoning_content"@),
        !non_empty(str_field(d, "content"@)) && !non_empty(str_field(d, "reasoning_content"@))
            && non_empty(str_field(d, "reasoning"@)) ==> delta_content_of(d) == str_field(
            d,
            "reasoning"@,
        ),
        !non_empty(str_field(d, "content"@)) && !non_empty(str_field(d, "reasoning_content"@))
            && !non_empty(str_field(d, "reasoning"@)) && non_empty(str_field(d, "thought"@))
            ==> delta_content_of(d) == str_field(d, "thought"@),
        delta_content_of(d) matches Some(t) ==> t.len() > 0,
{
}

/// A member that is not a string (such as `"content": null`) gives no text.
pub proof fn str_field_needs_string(d: JsonValue, key: Seq<char>)
    ensures
        (get_field(d, key) matches Some(v) && !(v is Str)) ==> str_field(d, key) is None,
        get_field(d, key) is None ==> str_field(d, key) is None,
{
}

/// When the JSON reading of a data line gives no output (it is not JSON, it has no
/// first choice, or its first choice shows nothing), the output is what the loose
/// reading of the raw line finds, whether or not the line parsed as JSON.
pub proof fn chunk_text_falls_back_to_loose(data: Seq<char>, parsed: Option<JsonValue>)
    requires
        match parsed {
            None => true,
            Some(v) => match first_element(get_field(v, "choices"@)) {
                None => true,
                Some(c) => choice_output_of(c) is None,
            },
        },
    ensures
        chunk_text_of(data, parsed) == loose_content_of(data),
{
}

/// A JSON line without a `choices` member is read loosely, like a line that is not JSON.
pub proof fn chunk_text_without_choices(data: Seq<char>, v: JsonValue)
    requires
        get_field(v, "choices"@) is None,
    ensures
        chunk_text_of(data, Some(v)) == loose_content_of(data),
        chunk_text_of(data, Some(v)) == chunk_text_of(data, None),
{
}

/// When the first choice's `delta` shows output, that output is the chunk's output,
/// whatever the rest of the line holds.
pub proof fn chunk_text_reads_first_delta(data: Seq<char>, v: JsonValue, choice: JsonValue, delta: JsonValue)
    requires
        first_element(get_field(v, "choices"@)) == Some(choice),
        get_field(choice, "delta"@) == Some(delta),
        delta_content_of(delta) is Some,
    ensures
        chunk_text_of(data, Some(v)) == delta_content_of(delta),
{
}

/// `<str as PartialEq>::eq`: two texts are equal when they hold the same characters.
#[verifier::external_body]
fn str_equal(a: &str, b: &str) -> (r: bool)
    ensures
        r == (a@ == b@),
{
    a == b
}

/// The member `key` of `v` (`serde_json::Value::get` with a key).
pub fn json_get<'a>(v: &'a JsonValue, key: &str) -> (r: Option<&'a JsonValue>)
    ensures
        match r {
            Some(x) => get_field(*v, key@) == Some(*x),
            None => get_field(*v, key@) is None,
        },
{
    match v {
        JsonValue::Object(members) => {
            let n = members.len();
            let mut i: usize = 0;
            assert(members@.subrange(0, n as int) =~= members@);
            while i < n
                invariant
                    n == members@.len(),
                    i <= n,
                    get_field(*v, key@) == member_value(members@, key@),
                    member_value(members@.subrange(i as int, n as int), key@) == member_value(
                        members@,
                        key@,
                    ),
                decreases n - i,
            {
                if str_equal(members[i].key.as_str(), key) {
                    assert(members@.subrange(i as int, n as int)[0] == members@[i as int]);
                    return Some(&members[i].value);
                }
                assert(members@.subrange(i as int, n as int).drop_first() =~= members@.subrange(
                    i + 1,
                    n as int,
                ));
                i = i + 1;
            }
            None
        },
        _ => None,
    }
}

/// The first element of `v` when it is a non-empty array.
pub fn json_first(v: Option<&JsonValue>) -> (r: Option<&JsonValue>)
    ensures
        match r {
            Some(x) => first_element(
                match v {
                    Some(y) => Some(*y),
                    None => None,
                },
            ) == Some(*x),
            None => first_element(
                match v {
                    Some(y) => Some(*y),
                    None => None,
                },
            ) is None,
        },
{
    match v {
        Some(JsonValue::Array(items)) => {
            if items.len() > 0 {
                Some(&items[0])
            } else {
                None
            }
        },
        _ => None,
    }
}

/// The string held by the member `key` of `v`.
pub fn json_str_field(v: &JsonValue, key: &str) -> (r: Option<String>)
    ensures
        opt_view(r) == str_field(*v, key@),
{
    match json_get(v, key) {
        Some(JsonValue::Str(s)) => Some(s.clone()),
        _ => None,
    }
}

/// The string member `key` of `v` when it is non-empty.
fn non_empty_field(v: &JsonValue, key: &str) -> (r: Option<String>)
    ensures
        non_empty(str_field(*v, key@)) ==> opt_view(r) == str_field(*v, key@),
        !non_empty(str_field(*v, key@)) ==> r is None,
{
    match json_str_field(v, key) {
        Some(s) => {
            if s.as_str().is_empty() {
                None
            } else {
                Some(s)
            }
        },
        None => None,
    }
}

/// The first non-empty output held by a `delta` or `message` object.
pub fn extract_delta_content(delta: &JsonValue) -> (r: Option<String>)
    ensures
        opt_view(r) == delta_content_of(*delta),
{
    if let Some(s) = non_empty_field(delta, "content") {
        return Some(s);
    }
    if let Some(s) = non_empty_field(delta, "reasoning_content") {
        return Some(s);
    }
    if let Some(s) = non_empty_field(delta, "reasoning") {
        return Some(s);
    }
    if let Some(s) = non_empty_field(delta, "thought") {
        return Some(s);
    }
    if let Some(first_call) = json_first(json_get(delta, "tool_calls")) {
        if let Some(func) = json_get(first_call, "function") {
            if let Some(name) = non_empty_field(func, "name") {
                let mut shown = String::new();
                push_text(&mut shown, "[fn:");
                push_text(&mut shown, name.as_str());
                push_text(&mut shown, "]");
                return Some(shown);
            }
            if let Some(args) = non_empty_field(func, "arguments") {
                return Some(args);
            }
        }
    }
    None
}

/// The visible output of one data line: `parsed` is the line's JSON reading, or `None`
/// when the line is not JSON.
pub fn extract_chunk_text(data: &str, parsed: &Option<JsonValue>) -> (r: Option<String>)
    ensures
        opt_view(r) == chunk_text_of(data@, *parsed),
{
    if let Some(v) = parsed {
        if let Some(choice) = json_first(json_get(v, "choices")) {
            if let Some(d) = json_get(choice, "delta") {
                if let Some(t) = extract_delta_content(d) {
                    return Some(t);
                }
            }
            if let Some(m) = json_get(choice, "message") {
                if let Some(t) = extract_delta_content(m) {
                    return Some(t);
                }
            }
            if let Some(t) = non_empty_field(choice, "text") {
                return Some(t);
            }
        }
    }
    loose_content(data)
}

} // verus!
