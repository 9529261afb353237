//! The request sent to the endpoint and the reading of its answer.
//!
//! An answer body is held as a [`Json`] tree: for every node the shape the
//! reply extraction looks at, together with the compact JSON text of the node.

use vstd::prelude::*;

use crate::error::AssistantError;
use crate::text::{decimal, push_decimal};

verus! {

/// A JSON value as far as reply extraction reads it.
#[derive(Debug)]
pub enum JsonValue {
    /// `null`, a boolean or a number.
    Scalar,
    /// A string, with its contents.
    Str(String),
    /// An array, with its items in order.
    Array(Vec<Json>),
    /// An object, with its members in the order of the map that holds them.
    Object(Vec<(String, Json)>),
}

/// A JSON node: its shape and its compact serialisation.
#[derive(Debug)]
pub struct Json {
    pub value: JsonValue,
    pub text: String,
}

/// A parsed answer body: the document and its pretty-printed serialisation.
#[derive(Debug)]
pub struct ResponseBody {
    pub root: Json,
    pub pretty: String,
}

/// The value of the first member of `entries` named `key`.
pub open spec fn field_of(entries: Seq<(String, Json)>, key: Seq<char>) -> Option<Json>
    decreases entries.len(),
{
    if entries.len() == 0 {
        None
    } else if entries[0].0@ == key {
        Some(entries[0].1)
    } else {
        field_of(entries.drop_first(), key)
    }
}

/// `Value::get` with a string key: the member `key` of an object, `None` otherwise.
pub open spec fn get_key(j: Json, key: Seq<char>) -> Option<Json> {
    match j.value {
        JsonValue::Object(m) => field_of(m@, key),
        _ => None,
    }
}

/// `Value::get(0)`: the first item of a non-empty array, `None` otherwise.
pub open spec fn first_item(j: Json) -> Option<Json> {
    match j.value {
        JsonValue::Array(a) => if a@.len() > 0 {
            Some(a@[0])
        } else {
            None
        },
        _ => None,
    }
}

/// The contents of `j` when it is a string.
pub open spec fn string_value(j: Option<Json>) -> Option<Seq<char>> {
    match j {
        Some(v) => match v.value {
            JsonValue::Str(s) => Some(s@),
            _ => None,
        },
        None => None,
    }
}

/// The string items of `items` joined with nothing between them; other items are skipped.
pub open spec fn joined_strings(items: Seq<Json>) -> Seq<char>
    decreases items.len(),
{
    if items.len() == 0 {
        Seq::empty()
    } else {
        joined_strings(items.drop_last()) + match items.last().value {
            JsonValue::Str(s) => s@,
            _ => Seq::empty(),
        }
    }
}

/// The reply text carried by a value: a string is its own text; an object
/// gives its `content`, `text` or `output` string, in that order of
/// preference, else the strings of a `content` array joined; anything else
/// is shown as its JSON text.
pub open spec fn reply_of(v: Json) -> Seq<char> {
    match v.value {
        JsonValue::Str(s) => s@,
        JsonValue::Object(m) => {
            let content = field_of(m@, "content"@);
            if string_value(content) is Some {
                string_value(content)->0
            } else if string_value(field_of(m@, "text"@)) is Some {
                string_value(field_of(m@, "text"@))->0
            } else if string_value(field_of(m@, "output"@)) is Some {
                string_value(field_of(m@, "output"@))->0
            } else if content is Some && content->0.value is Array {
                joined_strings(content->0.value->Array_0@)
            } else {
                v.text@
            }
        },
        _ => v.text@,
    }
}

/// The suggested reply in an answer body: `response`, `output`, the first of
/// `candidates`, `text` and `answer` are tried in that order; with none of them
/// the whole document is shown pretty-printed, and a body that is not JSON is
/// shown as it is.
pub open spec fn reply_from_body(parsed: Option<ResponseBody>, raw: Seq<char>) -> Seq<char> {
    match parsed {
        None => raw,
        Some(b) => {
            let j = b.root;
            if let Some(v) = get_key(j, "response"@) {
                reply_of(v)
            } else if let Some(v) = get_key(j, "output"@) {
                reply_of(v)
            } else if get_key(j, "candidates"@) is Some && first_item(
                get_key(j, "candidates"@)->0,
            ) is Some {
                reply_of(first_item(get_key(j, "candidates"@)->0)->0)
            } else if let Some(v) = get_key(j, "text"@) {
                reply_of(v)
            } else if let Some(v) = get_key(j, "answer"@) {
                reply_of(v)
            } else {
                b.pretty@
            }
        },
    }
}

/// The member named `key`, if any.
fn find_field<'a>(entries: &'a Vec<(String, Json)>, key: &str) -> (r: Option<&'a Json>)
    ensures
        r matches Some(x) ==> field_of(entries@, key@) == Some(*x),
        r is None ==> field_of(entries@, key@) is None,
{
    let k = key.to_owned();
    let n = entries.len();
    let mut i: usize = 0;
    assert(entries@.skip(0) == entries@);
    while i < n
        invariant
            i <= n == entries.len(),
            k@ == key@,
            field_of(entries@, key@) == field_of(entries@.skip(i as int), key@),
        decreases n - i,
    {
        let e = &entries[i];
        assert(entries@.skip(i as int)[0] == entries@[i as int]);
        if e.0 == k {
            return Some(&e.1);
        }
        assert(entries@.skip(i as int).drop_first() == entries@.skip(i + 1));
        i = i + 1;
    }
    None
}

/// `Value::get` with a string key.
pub fn get_member<'a>(j: &'a Json, key: &str) -> (r: Option<&'a Json>)
    ensures
        r matches Some(x) ==> get_key(*j, key@) == Some(*x),
        r is None ==> get_key(*j, key@) is None,
{
    match &j.value {
        JsonValue::Object(m) => find_field(m, key),
        _ => None,
    }
}

/// `Value::get(0)`.
pub fn get_first<'a>(j: &'a Json) -> (r: Option<&'a Json>)
    ensures
        r matches Some(x) ==> first_item(*j) == Some(*x),
        r is None ==> first_item(*j) is None,
{
    match &j.value {
        JsonValue::Array(a) => if a.len() > 0 {
            Some(&a[0])
        } else {
            None
        },
        _ => None,
    }
}

fn string_of_member(m: &Vec<(String, Json)>, key: &str) -> (r: Option<String>)
    ensures
        r matches Some(s) ==> string_value(field_of(m@, key@)) == Some(s@),
        r is None ==> string_value(field_of(m@, key@)) is None,
{
    match find_field(m, key) {
        Some(v) => match &v.value {
            JsonValue::Str(s) => Some(s.clone()),
            _ => None,
        },
        None => None,
    }
}

fn join_strings(items: &Vec<Json>) -> (r: String)
    ensures
        r@ == joined_strings(items@),
{
    let mut r = String::new();
    let n = items.len();
    let mut i: usize = 0;
    assert(items@.take(0) == Seq::<Json>::empty());
    while i < n
        invariant
            i <= n == items.len(),
            r@ == joined_strings(items@.take(i as int)),
        decreases n - i,
    {
        assert(items@.take(i + 1).drop_last() == items@.take(i as int));
        match &items[i].value {
            JsonValue::Str(s) => r.append(s.as_str()),
            _ => {},
        }
        i = i + 1;
    }
    assert(items@.take(n as int) == items@);
    r
}

/// The reply text carried by a value (see [`reply_of`]).
pub fn extract_text(value: &Json) -> (r: String)
    ensures
        r@ == reply_of(*value),
{
    match &value.value {
        JsonValue::Str(s) => s.clone(),
        JsonValue::Object(m) => {
            if let Some(s) = string_of_member(m, "content") {
                return s;
            }
            if let Some(s) = string_of_member(m, "text") {
                return s;
            }
            if let Some(s) = string_of_member(m, "output") {
                return s;
            }
            if let Some(c) = find_field(m, "content") {
                if let JsonValue::Array(items) = &c.value {
                    return join_strings(items);
                }
            }
            value.text.clone()
        },
        _ => value.text.clone(),
    }
}

/// The suggested reply in an answer body (see [`reply_from_body`]).
pub fn reply_text(parsed: &Option<ResponseBody>, raw: &String) -> (r: String)
    ensures
        r@ == reply_from_body(*parsed, raw@),
{
    match parsed {
        None => raw.clone(),
        Some(b) => {
            let j = &b.root;
            if let Some(v) = get_member(j, "response") {
                return extract_text(v);
            }
            if let Some(v) = get_member(j, "output") {
                return extract_text(v);
            }
            if let Some(c) = get_member(j, "candidates") {
                if let Some(first) = get_first(c) {
                    return extract_text(first);
                }
            }
            if let Some(v) = get_member(j, "text") {
                return extract_text(v);
            }
            if let Some(v) = get_member(j, "answer") {
                return extract_text(v);
            }
            b.pretty.clone()
        },
    }
}

/// Whether an HTTP status code counts as success (200 to 299).
pub open spec fn is_success(status: u16) -> bool {
    200 <= status <= 299
}

#[verifier::external_type_specification]
#[verifier::external_body]
pub struct ExJsonValue(serde_json::Value);

/// What `serde_json` makes of an answer body: `None` where the text is not
/// JSON, else the document as a [`Json`] tree (each node with its compact
/// text) together with its pretty-printed text.
pub uninterp spec fn parsed_body(text: Seq<char>) -> Option<ResponseBody>;

/// One node of a parsed document, taken over variant by variant, with its
/// compact text from `serde_json::to_string`. It is used only by
/// [`parse_body`], whose contract covers it.
#[verifier::external_body]
fn node_of(v: &serde_json::Value) -> Json {
    let text = serde_json::to_string(v).unwrap_or_default();
    let value = match v {
        serde_json::Value::String(s) => JsonValue::Str(s.clone()),
        serde_json::Value::Array(items) => JsonValue::Array(items.iter().map(node_of).collect()),
        serde_json::Value::Object(m) => JsonValue::Object(m.iter().map(|(k, x)| (k.clone(), node_of(x))).collect()),
        _ => JsonValue::Scalar,
    };
    Json { value, text }
}

/// `serde_json::from_str::<Value>` on an answer body, with the document's
/// `serde_json::to_string_pretty` text: the contract claims that the result
/// is [`parsed_body`] of the text, a function of the text alone (parsing is
/// deterministic and objects keep their keys in sorted order).
#[verifier::external_body]
fn parse_body(text: &str) -> (r: Option<ResponseBody>)
    ensures
        r == parsed_body(text@),
{
    match serde_json::from_str::<serde_json::Value>(text) {
        Ok(v) => Some(ResponseBody { root: node_of(&v), pretty: serde_json::to_string_pretty(&v).unwrap_or_default() }),
        Err(_) => None,
    }
}

/// What an answer from the endpoint comes to: for a status outside 200..=299
/// the error that quotes the status line and the body, else the reply in the
/// body as `serde_json` parses it.
pub fn interpret_response(status: u16, status_line: String, body: String) -> (r: Result<
    String,
    AssistantError,
>)
    ensures
        !is_success(status) ==> r == Err::<String, AssistantError>(
            AssistantError::ApiStatus { status: status_line, body },
        ),
        is_success(status) ==> (r matches Ok(t) && t@ == reply_from_body(parsed_body(body@), body@)),
{
    if !(200 <= status && status <= 299) {
        return Err(AssistantError::ApiStatus { status: status_line, body });
    }
    let parsed = parse_body(body.as_str());
    Ok(reply_text(&parsed, &body))
}

/// A hexadecimal digit in lower case, for `d < 16`.
pub open spec fn hex_digit(d: int) -> char {
    if d < 10 {
        (d + 48) as char
    } else {
        (d + 87) as char
    }
}

/// How `serde_json` writes one character inside a string literal: quote and
/// backslash behind a backslash, backspace, tab, line feed, form feed and
/// carriage return as `\b \t \n \f \r`, the other characters below 0x20
/// as `\u00` and two lower-case hex digits, everything else as it is.
pub open spec fn escaped_char(c: char) -> Seq<char> {
    let n = c as u32;
    if c == '"' {
        seq!['\\', '"']
    } else if c == '\\' {
        seq!['\\', '\\']
    } else if n == 8 {
        seq!['\\', 'b']
    } else if n == 9 {
        seq!['\\', 't']
    } else if n == 10 {
        seq!['\\', 'n']
    } else if n == 12 {
        seq!['\\', 'f']
    } else if n == 13 {
        seq!['\\', 'r']
    } else if n < 32 {
        seq!['\\', 'u', '0', '0', hex_digit(n as int / 16), hex_digit(n as int % 16)]
    } else {
        seq![c]
    }
}

/// The characters of `s`, each escaped as [`escaped_char`] says.
pub open spec fn json_escaped(s: Seq<char>) -> Seq<char>
    decreases s.len(),
{
    if s.len() == 0 {
        Seq::empty()
    } else {
        json_escaped(s.drop_last()) + escaped_char(s.last())
    }
}

/// The JSON string literal that `serde_json` writes for `s`.
pub open spec fn json_string_literal(s: Seq<char>) -> Seq<char> {
    seq!['"'] + json_escaped(s) + seq!['"']
}

/// `serde_json::to_string` on a `str`: the contract claims the quoted string
/// with each character escaped as [`escaped_char`] says; serialising a `str`
/// into memory does not fail.
#[verifier::external_body]
fn json_quote(s: &str) -> (r: String)
    ensures
        r@ == json_string_literal(s@),
{
    match serde_json::to_string(s) {
        Ok(t) => t,
        Err(_) => String::new(),
    }
}

/// The compact JSON request body for `prompt`, with the members in the
/// order `serde_json` writes them.
pub open spec fn request_body_text(prompt: Seq<char>, max_output_tokens: nat) -> Seq<char> {
    "{\"contents\":[{\"parts\":[{\"text\":"@ + json_string_literal(prompt)
        + "}]}],\"generationConfig\":{\"maxOutputTokens\":"@ + decimal(max_output_tokens)
        + "}}"@
}

/// The body posted to the endpoint: one content part with the prompt, and the
/// output token limit.
pub fn request_body(prompt: &str, max_output_tokens: usize) -> (r: String)
    ensures
        r@ == request_body_text(prompt@, max_output_tokens as nat),
{
    let mut r = "{\"contents\":[{\"parts\":[{\"text\":".to_owned();
    let q = json_quote(prompt);
    r.append(q.as_str());
    r.append("}]}],\"generationConfig\":{\"maxOutputTokens\":");
    push_decimal(&mut r, max_output_tokens as u64);
    r.append("}}");
    r
}

/// A `response` member that is a string is the reply, word for word,
/// whatever else the body holds.
pub proof fn lemma_string_response_verbatim(b: ResponseBody, raw: Seq<char>, s: String)
    requires
        get_key(b.root, "response"@) matches Some(v) && v.value == JsonValue::Str(s),
    ensures
        reply_from_body(Some(b), raw) == s@,
{
}

/// Looking a member up finds exactly a member with that name: a result is
/// the value of some member whose name equals the key, of the first such
/// member, and there is a result whenever some member has that name.
pub proof fn lemma_member_lookup_is_exact(entries: Seq<(String, Json)>, key: Seq<char>)
    ensures
        field_of(entries, key) matches Some(v) ==> exists|i: int|
            0 <= i < entries.len() && entries[i].0@ == key && entries[i].1 == v && forall|j: int|
                0 <= j < i ==> entries[j].0@ != key,
        field_of(entries, key) is None <==> forall|i: int|
            0 <= i < entries.len() ==> entries[i].0@ != key,
    decreases entries.len(),
{
    if entries.len() > 0 {
        let rest = entries.drop_first();
        lemma_member_lookup_is_exact(rest, key);
        if entries[0].0@ != key {
            if field_of(entries, key) is Some {
                let v = field_of(entries, key)->0;
                let i = choose|i: int|
                    0 <= i < rest.len() && rest[i].0@ == key && rest[i].1 == v && forall|j: int|
                        0 <= j < i ==> rest[j].0@ != key;
                assert(entries[i + 1] == rest[i]);
                assert forall|j: int| 0 <= j < i + 1 implies entries[j].0@ != key by {
                    if j > 0 {
                        assert(entries[j] == rest[j - 1]);
                    }
                }
            }
            assert((forall|i: int| 0 <= i < rest.len() ==> rest[i].0@ != key) <==> (forall|i: int|
                0 <= i < entries.len() ==> entries[i].0@ != key)) by {
                if forall|i: int| 0 <= i < rest.len() ==> rest[i].0@ != key {
                    assert forall|i: int| 0 <= i < entries.len() implies entries[i].0@ != key by {
                        if i > 0 {
                            assert(entries[i] == rest[i - 1]);
                        }
                    }
                }
                if forall|i: int| 0 <= i < entries.len() ==> entries[i].0@ != key {
                    assert forall|i: int| 0 <= i < rest.len() implies rest[i].0@ != key by {
                        assert(entries[i + 1] == rest[i]);
                    }
                }
            }
        }
    }
}

/// A value looked up by name in a document is a member with exactly that
/// name: `Value::get` never answers with a member whose name only starts
/// with the key.
pub proof fn lemma_get_key_is_exact(j: Json, key: Seq<char>)
    ensures
        get_key(j, key) matches Some(v) ==> (j.value is Object && exists|i: int|
            0 <= i < j.value->Object_0@.len() && j.value->Object_0@[i].0@ == key
                && j.value->Object_0@[i].1 == v),
        j.value is Object && (forall|i: int|
            0 <= i < j.value->Object_0@.len() ==> j.value->Object_0@[i].0@ != key) ==> get_key(j, key) is None,
{
    if let JsonValue::Object(m) = j.value {
        lemma_member_lookup_is_exact(m@, key);
    }
}

/// A status counts as success exactly from 200 to 299.
pub proof fn lemma_success_is_2xx(status: u16)
    ensures
        is_success(status) <==> 200 <= status && status < 300,
        is_success(200) && is_success(299) && !is_success(199) && !is_success(300),
{
}

/// The first item of an array is its item at index 0, and only a non-empty
/// array has one.
pub proof fn lemma_first_item_is_index_zero(j: Json)
    ensures
        first_item(j) is Some <==> (j.value is Array && j.value->Array_0@.len() > 0),
        first_item(j) is Some ==> first_item(j)->0 == j.value->Array_0@[0],
{
}

/// How a value reads as a reply: a string as itself; an array or a scalar as
/// its JSON text; an object by its `content`, `text` or `output` string, in
/// that order, else by the strings of a `content` array, else by its JSON text.
pub proof fn lemma_reply_of_cases(v: Json)
    ensures
        v.value is Str ==> reply_of(v) == v.value->Str_0@,
        v.value is Scalar || v.value is Array ==> reply_of(v) == v.text@,
        get_key(v, "content"@) is Some && get_key(v, "content"@)->0.value is Str ==> reply_of(v)
            == get_key(v, "content"@)->0.value->Str_0@,
        get_key(v, "content"@) is Some && !(get_key(v, "content"@)->0.value is Str) && get_key(
            v,
            "text"@,
        ) is Some && get_key(v, "text"@)->0.value is Str ==> reply_of(v) == get_key(
            v,
            "text"@,
        )->0.value->Str_0@,
        get_key(v, "content"@) is None && get_key(v, "text"@) is Some && get_key(
            v,
            "text"@,
        )->0.value is Str ==> reply_of(v) == get_key(v, "text"@)->0.value->Str_0@,
        v.value is Object && !(get_key(v, "content"@) is Some && get_key(v, "content"@)->0.value is Str)
            && !(get_key(v, "text"@) is Some && get_key(v, "text"@)->0.value is Str) && get_key(
            v,
            "output"@,
        ) is Some && get_key(v, "output"@)->0.value is Str ==> reply_of(v) == get_key(
            v,
            "output"@,
        )->0.value->Str_0@,
        v.value is Object && get_key(v, "content"@) is Some && get_key(v, "content"@)->0.value is Array
            && !(get_key(v, "text"@) is Some && get_key(v, "text"@)->0.value is Str) && !(get_key(
            v,
            "output"@,
        ) is Some && get_key(v, "output"@)->0.value is Str) ==> reply_of(v) == joined_strings(
            get_key(v, "content"@)->0.value->Array_0@,
        ),
        v.value is Object && get_key(v, "content"@) is None && get_key(v, "text"@) is None && get_key(
            v,
            "output"@,
        ) is None ==> reply_of(v) == v.text@,
{
}

/// Joining the strings of a list: an empty list gives nothing, and one more
/// item adds its text when it is a string and nothing otherwise.
pub proof fn lemma_joined_strings_extend(items: Seq<Json>, x: Json)
    ensures
        joined_strings(Seq::<Json>::empty()) == Seq::<char>::empty(),
        x.value is Str ==> joined_strings(items.push(x)) == joined_strings(items) + x.value->Str_0@,
        !(x.value is Str) ==> joined_strings(items.push(x)) == joined_strings(items),
{
    assert(items.push(x).drop_last() == items);
}

/// The order in which an answer is read: a body that is not JSON as it is;
/// otherwise the first of the members `response`, `output`, the first of
/// `candidates`, `text` and `answer` that is there, read as a reply; with none
/// of them the pretty-printed document.
pub proof fn lemma_reply_member_order(b: ResponseBody, raw: Seq<char>)
    ensures
        reply_from_body(None, raw) == raw,
        get_key(b.root, "response"@) is Some ==> reply_from_body(Some(b), raw) == reply_of(
            get_key(b.root, "response"@)->0,
        ),
        get_key(b.root, "response"@) is None && get_key(b.root, "output"@) is Some
            ==> reply_from_body(Some(b), raw) == reply_of(get_key(b.root, "output"@)->0),
        get_key(b.root, "response"@) is None && get_key(b.root, "output"@) is None && get_key(
            b.root,
            "candidates"@,
        ) is Some && first_item(get_key(b.root, "candidates"@)->0) is Some ==> reply_from_body(
            Some(b),
            raw,
        ) == reply_of(first_item(get_key(b.root, "candidates"@)->0)->0),
        get_key(b.root, "response"@) is None && get_key(b.root, "output"@) is None && (get_key(
            b.root,
            "candidates"@,
        ) is None || first_item(get_key(b.root, "candidates"@)->0) is None) && get_key(
            b.root,
            "text"@,
        ) is Some ==> reply_from_body(Some(b), raw) == reply_of(get_key(b.root, "text"@)->0),
        get_key(b.root, "response"@) is None && get_key(b.root, "output"@) is None && (get_key(
            b.root,
            "candidates"@,
        ) is None || first_item(get_key(b.root, "candidates"@)->0) is None) && get_key(
            b.root,
            "text"@,
        ) is None && get_key(b.root, "answer"@) is Some ==> reply_from_body(Some(b), raw)
            == reply_of(get_key(b.root, "answer"@)->0),
        get_key(b.root, "response"@) is None && get_key(b.root, "output"@) is None && get_key(
            b.root,
            "candidates"@,
        ) is None && get_key(b.root, "text"@) is None && get_key(b.root, "answer"@) is None
            ==> reply_from_body(Some(b), raw) == b.pretty@,
{
}

} // verus!
