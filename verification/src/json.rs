//! JSON values as the protocol uses them: the metadata that travels with each
//! message, and the text that a value is written as.

use std::sync::Arc;
use vstd::prelude::*;

verus! {

/// `serde_json::Value`, a JSON value of any shape. Nothing inside it is visible
/// here: the protocol carries such values through and writes them out.
#[verifier::external_type_specification]
#[verifier::external_body]
pub struct ExJsonValue(serde_json::Value);

/// `serde_json::Error`, what `serde_json` reports where it cannot write.
#[verifier::external_type_specification]
#[verifier::external_body]
pub struct ExJsonError(serde_json::Error);

/// The metadata of a message. What a client sends with a request is sent back,
/// unread, with every message that answers it.
pub type Meta = Arc<serde_json::Value>;

/// The text that `serde_json::to_string` writes for a value.
pub uninterp spec fn json_text(value: serde_json::Value) -> Seq<char>;

/// The JSON object that `serde_json::Value::from_iter` makes of one name and
/// one integer.
pub uninterp spec fn integer_member(name: Seq<char>, number: int) -> serde_json::Value;

/// A hexadecimal digit, in lower case.
pub open spec fn hex_digit(n: int) -> char {
    if n < 10 {
        ('0' as u8 + n) as char
    } else {
        ('a' as u8 + n - 10) as char
    }
}

/// How a character is written in a JSON string: quotes, backslashes and control
/// characters by an escape, all others as they are.
pub open spec fn escape(c: char) -> Seq<char> {
    if c == '"' {
        seq!['\\', '"']
    } else if c == '\\' {
        seq!['\\', '\\']
    } else if c as int == 8 {
        seq!['\\', 'b']
    } else if c as int == 9 {
        seq!['\\', 't']
    } else if c as int == 10 {
        seq!['\\', 'n']
    } else if c as int == 12 {
        seq!['\\', 'f']
    } else if c as int == 13 {
        seq!['\\', 'r']
    } else if (c as int) < 32 {
        seq!['\\', 'u', '0', '0', hex_digit(c as int / 16), hex_digit(c as int % 16)]
    } else {
        seq![c]
    }
}

/// A text as it is written in a JSON string.
pub open spec fn escaped(text: Seq<char>) -> Seq<char>
    decreases text.len(),
{
    if text.len() == 0 {
        seq![]
    } else {
        escape(text[0]) + escaped(text.skip(1))
    }
}

/// A text as a JSON string.
pub open spec fn quoted(text: Seq<char>) -> Seq<char> {
    seq!['"'] + escaped(text) + seq!['"']
}

/// The decimal digits of a natural number, most significant first.
pub open spec fn digits(n: nat) -> Seq<char>
    decreases n,
{
    if n < 10 {
        seq![('0' as u8 + n) as char]
    } else {
        digits(n / 10).push(('0' as u8 + n % 10) as char)
    }
}

/// An integer in decimal, with a minus sign before a negative one.
pub open spec fn decimal(n: int) -> Seq<char> {
    if n < 0 {
        seq!['-'] + digits((-n) as nat)
    } else {
        digits(n as nat)
    }
}

/// Calls `serde_json::to_string` on a value. This never fails: the keys of an
/// object are strings, a number that is not finite would be written as `null`, and
/// the text is put together in memory. The text is what `json_text` names.
#[verifier::external_body]
fn value_to_string(value: &serde_json::Value) -> (result: Result<String, serde_json::Error>)
    ensures
        result is Ok,
        result->Ok_0@ == json_text(*value),
{
    serde_json::to_string(value)
}

/// Calls `serde_json::Value::from` on a string slice. The value made is a JSON
/// string: it is written in quotes, with escapes where JSON asks for them.
#[verifier::external_body]
fn value_from_str(text: &str) -> (result: serde_json::Value)
    ensures
        json_text(result) == quoted(text@),
{
    serde_json::Value::from(text)
}

/// Calls `serde_json::Value::from_iter` on one pair of a name and an integer.
/// The value made is what `integer_member` names: an object with that one
/// member, written as the name in quotes, a colon and the integer in decimal,
/// in braces.
#[verifier::external_body]
fn value_from_member(name: &str, number: i64) -> (result: serde_json::Value)
    ensures
        result == integer_member(name@, number as int),
        json_text(result) == seq!['{'] + quoted(name@) + seq![':'] + decimal(number as int)
            + seq!['}'],
{
    serde_json::Value::from_iter([(name, number)])
}

/// The text of a value. `None` would stand for an error, but every value can be
/// written.
pub fn encode_value(value: &serde_json::Value) -> (text: Option<String>)
    ensures
        text matches Some(text) && text@ == json_text(*value),
{
    match value_to_string(value) {
        Ok(text) => Some(text),
        Err(_) => None,
    }
}

/// The text of a JSON string.
pub fn encode_string(string: &str) -> (text: Option<String>)
    ensures
        text matches Some(text) && text@ == quoted(string@),
{
    let value = value_from_str(string);
    encode_value(&value)
}

/// The metadata of a message that answers no request.
pub open spec fn server_meta() -> serde_json::Value {
    integer_member("sequenceNumber"@, -1)
}

/// Makes the metadata of a message that answers no request: the sequence number
/// -1.
pub fn create_server_meta() -> (meta: Meta)
    ensures
        *meta == server_meta(),
        json_text(*meta) == "{\"sequenceNumber\":-1}"@,
{
    let value = value_from_member("sequenceNumber", -1);
    proof {
        let name = "sequenceNumber"@;
        reveal_strlit("sequenceNumber");
        reveal_strlit("{\"sequenceNumber\":-1}");
        reveal_with_fuel(digits, 2);
        reveal_with_fuel(escaped, 15);
        assert(decimal(-1) =~= seq!['-', '1']);
        assert(escaped(name) =~= name);
        assert(seq!['{'] + quoted(name) + seq![':'] + decimal(-1) + seq!['}']
            =~= "{\"sequenceNumber\":-1}"@);
    }
    Arc::new(value)
}

} // verus!
