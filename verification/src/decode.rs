//! Reading a notification from its text.
//!
//! The feed sends each notification as JSON text. The `json` crate parses
//! it; the value it builds is copied into a [`RawPayload`], which is what the
//! rest of the library reads. What a text parses to is not stated here: it
//! has a name, [`json_parsed`], and the contracts speak of that.
//!
//! The parser counts the digits of a fraction in sixteen bits and does not
//! guard the count. A text with more than [`DIGIT_RUN_LIMIT`] decimal digits
//! in a row is therefore never handed to it: such a text is refused here.

use vstd::prelude::*;
use vstd::utf8::encode_utf8;

use json::JsonValue;

use crate::payload::{PayloadView, RawNumber, RawPayload};

verus! {

/// The most decimal digits in a row that a text may hold to be parsed.
pub const DIGIT_RUN_LIMIT: usize = 32767;

/// Whether `byte` is one of the ten ASCII digits.
pub open spec fn is_digit_byte(byte: u8) -> bool {
    48 <= byte <= 57
}

/// Whether the bytes from `start` up to `end` are all decimal digits.
pub open spec fn is_digit_run(bytes: Seq<u8>, start: int, end: int) -> bool {
    &&& 0 <= start <= end <= bytes.len()
    &&& forall|i: int| start <= i < end ==> is_digit_byte(#[trigger] bytes[i])
}

/// Whether no run of decimal digits in `bytes` is longer than `limit`.
pub open spec fn digit_runs_within(bytes: Seq<u8>, limit: int) -> bool {
    forall|start: int, end: int| #[trigger] is_digit_run(bytes, start, end) ==> end - start <= limit
}

/// Whether a text may be handed to the parser: written in UTF-8, it holds no
/// more than [`DIGIT_RUN_LIMIT`] decimal digits in a row.
pub open spec fn parser_takes(text: Seq<char>) -> bool {
    digit_runs_within(encode_utf8(text), DIGIT_RUN_LIMIT as int)
}

/// `json::JsonValue`, a parsed JSON value. It is only copied here.
#[verifier::external_type_specification]
#[verifier::external_body]
pub struct ExJsonValue(json::JsonValue);

/// `json::Error`, why a text did not parse. Nothing inside it is read here.
#[verifier::external_type_specification]
#[verifier::external_body]
pub struct ExJsonError(json::Error);

/// What a value of the `json` crate holds: null, a boolean, a string (short
/// or long), a number by the three parts that
/// `json::number::Number::as_parts` gives, the elements of an array in their
/// order, or the entries of an object in the order that
/// `json::object::Object::iter` yields them.
pub uninterp spec fn json_contents(value: JsonValue) -> PayloadView;

/// What `json::parse` makes of `source`: what the value that it returns
/// holds, or nothing where it fails.
pub uninterp spec fn json_parsed(source: Seq<char>) -> Option<PayloadView>;

/// `json::parse`: whether a text parses, and what the value holds that it
/// parses to, depends on the text alone. A text with a longer run of digits
/// than [`DIGIT_RUN_LIMIT`] is left out: on a fraction of more than 32,768
/// digits the parser's exponent overflows, which is a panic where overflow
/// is checked.
pub assume_specification[ json::parse ](source: &str) -> (parsed: Result<JsonValue, json::Error>)
    requires
        parser_takes(source@),
    ensures
        parsed matches Ok(value) ==> json_parsed(source@) == Some(json_contents(value)),
        parsed is Err ==> json_parsed(source@) is None,
;

/// Copies a `json::JsonValue` into a payload, variant by variant, reading a
/// short string by `json::short::Short::as_str`, a number by
/// `json::number::Number::as_parts` and an object by
/// `json::object::Object::iter`. The payload holds what the value holds.
#[verifier::external_body]
fn payload_of(value: &JsonValue) -> (payload: RawPayload)
    ensures
        payload@ == json_contents(*value),
{
    match value {
        JsonValue::Null => RawPayload::Null,
        JsonValue::Boolean(flag) => RawPayload::Boolean(*flag),
        JsonValue::Number(number) => {
            let (positive, mantissa, exponent) = number.as_parts();
            RawPayload::Number(RawNumber { positive, mantissa, exponent })
        },
        JsonValue::Short(text) => RawPayload::Text(text.as_str().to_string()),
        JsonValue::String(text) => RawPayload::Text(text.clone()),
        JsonValue::Array(items) => RawPayload::Array(items.iter().map(payload_of).collect()),
        JsonValue::Object(fields) => RawPayload::Object(
            fields.iter().map(|(name, held)| (name.to_string(), payload_of(held))).collect(),
        ),
    }
}

/// Tells whether a text may be handed to the parser.
pub fn check_digit_runs(text: &str) -> (fits: bool)
    ensures
        fits == parser_takes(text@),
{
    let bytes = text.as_bytes();
    let mut run: usize = 0;
    let mut i: usize = 0;
    while i < bytes.len()
        invariant
            i <= bytes.len(),
            bytes@ == encode_utf8(text@),
            run <= DIGIT_RUN_LIMIT,
            run <= i,
            is_digit_run(bytes@, i - run, i as int),
            run < i ==> !is_digit_byte(bytes@[i - run - 1]),
            forall|start: int, end: int|
                end <= i && #[trigger] is_digit_run(bytes@, start, end) ==> end - start
                    <= DIGIT_RUN_LIMIT,
        decreases bytes.len() - i,
    {
        let digit = 48 <= bytes[i] && bytes[i] <= 57;
        if digit && run == DIGIT_RUN_LIMIT {
            assert(is_digit_run(bytes@, i - run, i + 1));
            return false;
        }
        proof {
            assert forall|start: int, end: int|
                end <= i + 1 && #[trigger] is_digit_run(bytes@, start, end) implies end - start
                <= DIGIT_RUN_LIMIT by {
                if end == i + 1 && start < end {
                    assert(is_digit_byte(bytes@[i as int]));
                    if start < i - run {
                        assert(is_digit_byte(bytes@[i - run - 1]));
                    }
                } else if end <= i {
                    assert(is_digit_run(bytes@, start, end));
                }
            }
        }
        if digit {
            run += 1;
        } else {
            run = 0;
        }
        i += 1;
    }
    true
}

/// What parsing gives for a text: what the parser makes of a text that it
/// takes, and nothing for any other.
pub open spec fn parse_spec(text: Seq<char>) -> Option<PayloadView> {
    if parser_takes(text) {
        json_parsed(text)
    } else {
        None
    }
}

/// The outcome of parsing as contracts see it.
pub open spec fn parsed_view(payload: Option<RawPayload>) -> Option<PayloadView> {
    match payload {
        Some(held) => Some(held@),
        None => None,
    }
}

/// Parses a text that the parser takes. A text that is no JSON gives none.
pub(crate) fn parse_checked(text: &str) -> (payload: Option<RawPayload>)
    requires
        parser_takes(text@),
    ensures
        parsed_view(payload) == json_parsed(text@),
{
    match json::parse(text) {
        Ok(value) => Some(payload_of(&value)),
        Err(_) => None,
    }
}

/// Parses the text of one notification. A text that is no JSON gives none,
/// and so does a text with more than [`DIGIT_RUN_LIMIT`] digits in a row.
pub fn parse_payload(text: &str) -> (payload: Option<RawPayload>)
    ensures
        parsed_view(payload) == parse_spec(text@),
{
    if check_digit_runs(text) {
        parse_checked(text)
    } else {
        None
    }
}

} // verus!
