//! The wire form of an event.
//!
//! An event is written as the JSON value of what it holds, with nothing that
//! names its kind: a timeslot and a queue length as a number, the
//! transmitting flag as `true` or `false`, and a paging message as an object
//! with the two fields `destination` and `text`, in this order and without
//! white space. Subscribers depend on these bytes.

use vstd::prelude::*;
use vstd::utf8::encode_utf8;

use crate::event::{DomainEvent, EventView, PagingMessage, PagingMessageView};

verus! {

/// The ASCII digit for `value`, which is below ten.
pub open spec fn decimal_digit(value: nat) -> u8 {
    (48 + value) as u8
}

/// `value` in decimal, without leading zeros.
pub open spec fn decimal(value: nat) -> Seq<u8>
    decreases value,
{
    if value < 10 {
        seq![decimal_digit(value)]
    } else {
        decimal(value / 10).push(decimal_digit(value % 10))
    }
}

/// The lower-case hexadecimal digit for `value`, which is below sixteen.
pub open spec fn hex_digit(value: u8) -> u8 {
    if value < 10 {
        (48 + value) as u8
    } else {
        (87 + value) as u8
    }
}

/// One byte of a string as it stands between the quotes: a quote and a
/// backslash get a backslash in front, backspace, tab, line feed, form feed
/// and carriage return their letter after a backslash, any other byte below
/// 32 the form `\u00XX`, and every other byte stands for itself.
pub open spec fn escaped_byte(byte: u8) -> Seq<u8> {
    if byte == 0x22 {
        seq![0x5cu8, 0x22u8]
    } else if byte == 0x5c {
        seq![0x5cu8, 0x5cu8]
    } else if byte == 0x08 {
        seq![0x5cu8, 0x62u8]
    } else if byte == 0x09 {
        seq![0x5cu8, 0x74u8]
    } else if byte == 0x0a {
        seq![0x5cu8, 0x6eu8]
    } else if byte == 0x0c {
        seq![0x5cu8, 0x66u8]
    } else if byte == 0x0d {
        seq![0x5cu8, 0x72u8]
    } else if byte < 0x20 {
        seq![0x5cu8, 0x75u8, 0x30u8, 0x30u8, hex_digit(byte / 16), hex_digit(byte % 16)]
    } else {
        seq![byte]
    }
}

/// The bytes of a string as they stand between the quotes.
pub open spec fn escaped(bytes: Seq<u8>) -> Seq<u8>
    decreases bytes.len(),
{
    if bytes.len() == 0 {
        Seq::empty()
    } else {
        escaped(bytes.drop_last()) + escaped_byte(bytes.last())
    }
}

/// A text as a JSON string: its UTF-8 bytes, escaped, between two quotes.
pub open spec fn quoted(text: Seq<char>) -> Seq<u8> {
    seq![0x22u8] + escaped(encode_utf8(text)) + seq![0x22u8]
}

/// A paging message as a JSON object.
pub open spec fn message_spec(message: PagingMessageView) -> Seq<u8> {
    encode_utf8("{\"destination\":"@) + decimal(message.destination as nat) + encode_utf8(
        ",\"text\":"@,
    ) + quoted(message.text) + encode_utf8("}"@)
}

/// The body that an event is published as.
pub open spec fn encode_spec(event: EventView) -> Seq<u8> {
    match event {
        EventView::Timeslot(slot) => decimal(slot as nat),
        EventView::Transmitting(active) => if active {
            encode_utf8("true"@)
        } else {
            encode_utf8("false"@)
        },
        EventView::QueueLength(length) => decimal(length as nat),
        EventView::NewMessage(message) => message_spec(message),
    }
}

/// Appends the UTF-8 bytes of `text`.
fn push_text(out: &mut Vec<u8>, text: &str)
    ensures
        final(out)@ == old(out)@ + encode_utf8(text@),
{
    out.extend_from_slice(text.as_bytes());
    assert(out@ =~= old(out)@ + encode_utf8(text@));
}

/// Appends `value` in decimal.
fn push_decimal(out: &mut Vec<u8>, value: u64)
    ensures
        final(out)@ == old(out)@ + decimal(value as nat),
    decreases value,
{
    if value >= 10 {
        push_decimal(out, value / 10);
    }
    out.push(48 + (value % 10) as u8);
    assert(out@ =~= old(out)@ + decimal(value as nat));
}

/// The lower-case hexadecimal digit for `value`.
fn hex_digit_of(value: u8) -> (digit: u8)
    requires
        value < 16,
    ensures
        digit == hex_digit(value),
{
    if value < 10 {
        48 + value
    } else {
        87 + value
    }
}

/// Appends one byte of a string as it stands between the quotes.
fn push_escaped_byte(out: &mut Vec<u8>, byte: u8)
    ensures
        final(out)@ == old(out)@ + escaped_byte(byte),
{
    if byte == 0x22 || byte == 0x5c {
        out.push(0x5c);
        out.push(byte);
    } else if byte == 0x08 {
        out.push(0x5c);
        out.push(0x62);
    } else if byte == 0x09 {
        out.push(0x5c);
        out.push(0x74);
    } else if byte == 0x0a {
        out.push(0x5c);
        out.push(0x6e);
    } else if byte == 0x0c {
        out.push(0x5c);
        out.push(0x66);
    } else if byte == 0x0d {
        out.push(0x5c);
        out.push(0x72);
    } else if byte < 0x20 {
        out.push(0x5c);
        out.push(0x75);
        out.push(0x30);
        out.push(0x30);
        out.push(hex_digit_of(byte / 16));
        out.push(hex_digit_of(byte % 16));
    } else {
        out.push(byte);
    }
    assert(out@ =~= old(out)@ + escaped_byte(byte));
}

/// Appends `text` as a JSON string.
fn push_quoted(out: &mut Vec<u8>, text: &str)
    ensures
        final(out)@ == old(out)@ + quoted(text@),
{
    let bytes = text.as_bytes();
    out.push(0x22);
    let mut i: usize = 0;
    while i < bytes.len()
        invariant
            i <= bytes.len(),
            bytes@ == encode_utf8(text@),
            out@ == old(out)@ + seq![0x22u8] + escaped(bytes@.subrange(0, i as int)),
        decreases bytes.len() - i,
    {
        push_escaped_byte(out, bytes[i]);
        proof {
            let longer = bytes@.subrange(0, i + 1);
            assert(longer.drop_last() =~= bytes@.subrange(0, i as int));
            assert(longer.last() == bytes@[i as int]);
            assert(out@ =~= old(out)@ + seq![0x22u8] + escaped(longer));
        }
        i += 1;
    }
    out.push(0x22);
    proof {
        assert(bytes@.subrange(0, i as int) =~= bytes@);
        assert(out@ =~= old(out)@ + quoted(text@));
    }
}

/// Writes a paging message as a JSON object.
pub fn encode_message(message: &PagingMessage) -> (body: Vec<u8>)
    ensures
        body@ == message_spec(message@),
{
    let mut body: Vec<u8> = Vec::new();
    push_text(&mut body, "{\"destination\":");
    push_decimal(&mut body, message.destination as u64);
    push_text(&mut body, ",\"text\":");
    push_quoted(&mut body, message.text.as_str());
    push_text(&mut body, "}");
    assert(body@ =~= message_spec(message@));
    body
}

/// Writes the body that `event` is published as.
pub fn encode(event: &DomainEvent) -> (body: Vec<u8>)
    ensures
        body@ == encode_spec(event@),
{
    match event {
        DomainEvent::Timeslot(slot) => {
            let mut body: Vec<u8> = Vec::new();
            push_decimal(&mut body, *slot as u64);
            assert(body@ =~= decimal(*slot as nat));
            body
        },
        DomainEvent::Transmitting(active) => {
            let mut body: Vec<u8> = Vec::new();
            if *active {
                push_text(&mut body, "true");
            } else {
                push_text(&mut body, "false");
            }
            assert(body@ =~= encode_spec(event@));
            body
        },
        DomainEvent::QueueLength(length) => {
            let mut body: Vec<u8> = Vec::new();
            push_decimal(&mut body, *length as u64);
            assert(body@ =~= decimal(*length as nat));
            body
        },
        DomainEvent::NewMessage(message) => encode_message(message),
    }
}

} // verus!
