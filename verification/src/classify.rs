//! Classification of a notification into one typed event.
//!
//! Two shapes are known, and they are tried in this order. A status update
//! is an object whose field `StatusUpdate` holds an array that starts with a
//! string, the tag; the tag names the kind and the second element is the
//! value. A log entry is an object whose field `Log` holds an array; its
//! second element is a log line that may report a paging message. A payload
//! of neither shape is not classified.

use vstd::prelude::*;

use crate::event::{DomainEvent, EventView};
use crate::extract::{
    extract_entry_spec, extract_spec, is_part_of, ExtractionError, PatternExtractor,
};
use crate::payload::{first_named, views_of, PayloadView, RawNumber, RawPayload};
use crate::text::text_eq;

verus! {

/// Why a notification was not classified.
#[derive(Debug, Clone, Copy, PartialEq, Eq)]
pub enum ClassificationError {
    /// The payload is neither a status update nor a log entry.
    UnrecognizedShape,
    /// The tag of a status update names none of the known kinds.
    UnknownStatusKind,
    /// The value of a status update is missing, or is not of the type that
    /// its kind takes.
    MalformedValue,
    /// The log entry holds no paging message.
    Extraction(ExtractionError),
}

/// The outcome of a classification as contracts see it.
pub open spec fn classification_view(outcome: Result<DomainEvent, ClassificationError>) -> Result<
    EventView,
    ClassificationError,
> {
    match outcome {
        Ok(event) => Ok(event@),
        Err(error) => Err(error),
    }
}

/// The kinds of status update. The tag of an update names one of them.
#[derive(Debug, Clone, Copy, PartialEq, Eq)]
pub enum StatusKind {
    /// Tagged `timeslot`; holds an integer from 0 to 255.
    Timeslot,
    /// Tagged `queue`; holds an unsigned integer.
    Queue,
    /// Tagged `transmitting`; holds a boolean.
    Transmitting,
}

impl StatusKind {
    /// The kind that `tag` names, if it names one.
    pub open spec fn of_tag(tag: Seq<char>) -> Option<StatusKind> {
        if tag == "timeslot"@ {
            Some(StatusKind::Timeslot)
        } else if tag == "queue"@ {
            Some(StatusKind::Queue)
        } else if tag == "transmitting"@ {
            Some(StatusKind::Transmitting)
        } else {
            None
        }
    }

    /// The event of an update of this kind that holds `value`.
    pub open spec fn event_spec(self, value: Option<PayloadView>) -> Result<
        EventView,
        ClassificationError,
    > {
        match self {
            StatusKind::Timeslot => match value {
                Some(v) if v.as_u8() is Some => Ok(EventView::Timeslot(v.as_u8()->0)),
                _ => Err(ClassificationError::MalformedValue),
            },
            StatusKind::Queue => match value {
                Some(v) if v.as_usize() is Some => Ok(EventView::QueueLength(v.as_usize()->0)),
                _ => Err(ClassificationError::MalformedValue),
            },
            StatusKind::Transmitting => match value {
                Some(v) if v.as_bool() is Some => Ok(EventView::Transmitting(v.as_bool()->0)),
                _ => Err(ClassificationError::MalformedValue),
            },
        }
    }

    /// Finds the kind that `tag` names.
    pub fn from_tag(tag: &str) -> (kind: Option<StatusKind>)
        ensures
            kind == StatusKind::of_tag(tag@),
    {
        if text_eq(tag, "timeslot") {
            Some(StatusKind::Timeslot)
        } else if text_eq(tag, "queue") {
            Some(StatusKind::Queue)
        } else if text_eq(tag, "transmitting") {
            Some(StatusKind::Transmitting)
        } else {
            None
        }
    }

    /// Reads the value of an update of this kind.
    pub fn event(self, value: Option<&RawPayload>) -> (event: Result<
        DomainEvent,
        ClassificationError,
    >)
        ensures
            classification_view(event) == self.event_spec(held_view(value)),
    {
        let read = match value {
            Some(held) => match self {
                StatusKind::Timeslot => match held.as_u8() {
                    Some(slot) => Some(DomainEvent::Timeslot(slot)),
                    None => None,
                },
                StatusKind::Queue => match held.as_usize() {
                    Some(length) => Some(DomainEvent::QueueLength(length)),
                    None => None,
                },
                StatusKind::Transmitting => match held.as_bool() {
                    Some(active) => Some(DomainEvent::Transmitting(active)),
                    None => None,
                },
            },
            None => None,
        };
        match read {
            Some(event) => Ok(event),
            None => Err(ClassificationError::MalformedValue),
        }
    }
}

/// The value of an update, if it has one, as contracts see it.
pub open spec fn held_view(value: Option<&RawPayload>) -> Option<PayloadView> {
    match value {
        Some(held) => Some(held@),
        None => None,
    }
}

/// The event of a status update, by its tag and its value: a tag that names
/// no kind makes an update of unknown kind, whatever it holds.
pub open spec fn status_spec(tag: Seq<char>, value: Option<PayloadView>) -> Result<
    EventView,
    ClassificationError,
> {
    match StatusKind::of_tag(tag) {
        Some(kind) => kind.event_spec(value),
        None => Err(ClassificationError::UnknownStatusKind),
    }
}

/// The elements of a status update: what the field `StatusUpdate` holds,
/// where that is an array that starts with a string.
pub open spec fn status_update_of(payload: PayloadView) -> Option<Seq<PayloadView>> {
    match payload.field("StatusUpdate"@) {
        Some(PayloadView::Array(items)) => if items.len() > 0 && items[0] is Text {
            Some(items)
        } else {
            None
        },
        _ => None,
    }
}

/// The elements of a log entry: what the field `Log` holds, where that is an
/// array.
pub open spec fn log_entry_of(payload: PayloadView) -> Option<Seq<PayloadView>> {
    match payload.field("Log"@) {
        Some(PayloadView::Array(entry)) => Some(entry),
        _ => None,
    }
}

/// The element at `index`, if there is one.
pub open spec fn element(items: Seq<PayloadView>, index: int) -> Option<PayloadView> {
    if 0 <= index < items.len() {
        Some(items[index])
    } else {
        None
    }
}

/// The event that a payload is classified into. A status update is
/// classified by its tag; failing that shape, a log entry is handed to the
/// extractor; a payload of neither shape is not recognised.
pub open spec fn classify_spec(payload: PayloadView) -> Result<EventView, ClassificationError> {
    match status_update_of(payload) {
        Some(items) => status_spec(items[0]->Text_0, element(items, 1)),
        None => match log_entry_of(payload) {
            Some(entry) => match extract_entry_spec(entry) {
                Ok(message) => Ok(EventView::NewMessage(message)),
                Err(error) => Err(ClassificationError::Extraction(error)),
            },
            None => Err(ClassificationError::UnrecognizedShape),
        },
    }
}

/// Decides the event of a status update from its tag and its value.
pub fn status_event(tag: &str, value: Option<&RawPayload>) -> (event: Result<
    DomainEvent,
    ClassificationError,
>)
    ensures
        classification_view(event) == status_spec(tag@, held_view(value)),
{
    match StatusKind::from_tag(tag) {
        Some(kind) => kind.event(value),
        None => Err(ClassificationError::UnknownStatusKind),
    }
}

/// The elements of a status update and its tag, where `payload` is one.
fn status_update<'a>(payload: &'a RawPayload) -> (update: Option<(&'a str, &'a Vec<RawPayload>)>)
    ensures
        update matches Some((tag, items)) ==> status_update_of(payload@) == Some(
            views_of(items@),
        ) && items@.len() > 0 && items@[0]@ == PayloadView::Text(tag@),
        update is None ==> status_update_of(payload@) is None,
{
    match payload.field("StatusUpdate") {
        Some(held) => match held.items() {
            Some(items) => if items.len() > 0 {
                match items[0].as_text() {
                    Some(tag) => Some((tag, items)),
                    None => None,
                }
            } else {
                None
            },
            None => None,
        },
        None => None,
    }
}

/// The line of a log entry: its second element, where that is a string.
pub open spec fn log_line_of(payload: PayloadView) -> Option<Seq<char>> {
    match log_entry_of(payload) {
        Some(entry) => if entry.len() > 1 && entry[1] is Text {
            Some(entry[1]->Text_0)
        } else {
            None
        },
        None => None,
    }
}

/// Classifies one payload into one event. The text of a new message stands
/// in the log line as it is.
pub fn classify(payload: &RawPayload, extractor: &PatternExtractor) -> (event: Result<
    DomainEvent,
    ClassificationError,
>)
    ensures
        classification_view(event) == classify_spec(payload@),
        event matches Ok(DomainEvent::NewMessage(message)) ==> log_line_of(payload@) is Some
            && is_part_of(message.text@, log_line_of(payload@)->0),
{
    match status_update(payload) {
        Some((tag, items)) => {
            let value = if items.len() > 1 {
                Some(&items[1])
            } else {
                None
            };
            status_event(tag, value)
        },
        None => {
            let entry = match payload.field("Log") {
                Some(held) => held.items(),
                None => None,
            };
            match entry {
                Some(entry) => match extractor.extract(entry) {
                    Ok(message) => Ok(DomainEvent::NewMessage(message)),
                    Err(error) => Err(ClassificationError::Extraction(error)),
                },
                None => Err(ClassificationError::UnrecognizedShape),
            }
        },
    }
}

/// An unsigned integer as the feed writes it.
pub open spec fn unsigned(value: u64) -> PayloadView {
    PayloadView::Number(RawNumber { positive: true, mantissa: value, exponent: 0 })
}

/// Whether `payload` is an object whose field `StatusUpdate` holds the array
/// `[tag, value]`.
pub open spec fn is_status_update(payload: PayloadView, tag: Seq<char>, value: PayloadView) -> bool {
    payload.field("StatusUpdate"@) == Some(PayloadView::Array(seq![PayloadView::Text(tag), value]))
}

/// Whether `payload` is no status update, and an object whose field `Log`
/// holds the array `[stamp, line]`, with a string for the line.
pub open spec fn is_log_entry(payload: PayloadView, stamp: PayloadView, line: Seq<char>) -> bool {
    &&& status_update_of(payload) is None
    &&& payload.field("Log"@) == Some(PayloadView::Array(seq![stamp, PayloadView::Text(line)]))
}

/// The object `{"StatusUpdate": [tag, value]}`.
pub open spec fn status_update_payload(tag: Seq<char>, value: PayloadView) -> PayloadView {
    PayloadView::Object(
        seq![("StatusUpdate"@, PayloadView::Array(seq![PayloadView::Text(tag), value]))],
    )
}

/// The object `{"Log": [stamp, line]}`, with a string for the line.
pub open spec fn log_payload(stamp: PayloadView, line: Seq<char>) -> PayloadView {
    PayloadView::Object(seq![("Log"@, PayloadView::Array(seq![stamp, PayloadView::Text(line)]))])
}

/// The object `{"StatusUpdate": [tag, value]}` is a status update with that
/// tag and that value.
pub proof fn lemma_status_update_payload(tag: Seq<char>, value: PayloadView)
    ensures
        is_status_update(status_update_payload(tag, value), tag, value),
{
}

/// The object `{"Log": [stamp, line]}` is a log entry with that line.
pub proof fn lemma_log_payload(stamp: PayloadView, line: Seq<char>)
    ensures
        is_log_entry(log_payload(stamp, line), stamp, line),
{
    reveal_strlit("StatusUpdate");
    reveal_strlit("Log");
    assert("StatusUpdate"@.len() == 12);
    assert("Log"@.len() == 3);
    reveal_with_fuel(first_named, 2);
}

/// The three tags differ from each other, and from the tag `unknown`.
pub proof fn lemma_tags_differ()
    ensures
        "timeslot"@ != "queue"@,
        "timeslot"@ != "transmitting"@,
        "queue"@ != "transmitting"@,
        "unknown"@ != "timeslot"@,
        "unknown"@ != "queue"@,
        "unknown"@ != "transmitting"@,
{
    reveal_strlit("timeslot");
    reveal_strlit("queue");
    reveal_strlit("transmitting");
    reveal_strlit("unknown");
    assert("timeslot"@.len() == 8);
    assert("queue"@.len() == 5);
    assert("transmitting"@.len() == 12);
    assert("unknown"@.len() == 7);
}

/// A status update tagged `timeslot` that holds an integer from 0 to 255 is
/// classified as that timeslot.
pub proof fn lemma_timeslot_update(payload: PayloadView, slot: u8)
    requires
        is_status_update(payload, "timeslot"@, unsigned(slot as u64)),
    ensures
        classify_spec(payload) == Ok::<EventView, ClassificationError>(EventView::Timeslot(slot)),
{
}

/// A status update tagged `queue` that holds an unsigned integer is
/// classified as a queue of that length.
pub proof fn lemma_queue_update(payload: PayloadView, length: usize)
    requires
        is_status_update(payload, "queue"@, unsigned(length as u64)),
    ensures
        classify_spec(payload) == Ok::<EventView, ClassificationError>(
            EventView::QueueLength(length),
        ),
{
    lemma_tags_differ();
}

/// A status update tagged `transmitting` that holds a boolean is classified
/// as that transmitting flag.
pub proof fn lemma_transmitting_update(payload: PayloadView, active: bool)
    requires
        is_status_update(payload, "transmitting"@, PayloadView::Boolean(active)),
    ensures
        classify_spec(payload) == Ok::<EventView, ClassificationError>(
            EventView::Transmitting(active),
        ),
{
    lemma_tags_differ();
}

/// A status update with any other tag is of an unknown kind, whatever it
/// holds.
pub proof fn lemma_unknown_kind_update(payload: PayloadView, tag: Seq<char>, value: PayloadView)
    requires
        is_status_update(payload, tag, value),
        tag != "timeslot"@,
        tag != "queue"@,
        tag != "transmitting"@,
    ensures
        classify_spec(payload) == Err::<EventView, ClassificationError>(
            ClassificationError::UnknownStatusKind,
        ),
{
}

/// A payload with neither a field `StatusUpdate` nor a field `Log` is of no
/// recognised shape.
pub proof fn lemma_unrecognized_without_fields(payload: PayloadView)
    requires
        !payload.has_field("StatusUpdate"@),
        !payload.has_field("Log"@),
    ensures
        classify_spec(payload) == Err::<EventView, ClassificationError>(
            ClassificationError::UnrecognizedShape,
        ),
{
    payload.lemma_field_found_iff_present("StatusUpdate"@);
    payload.lemma_field_found_iff_present("Log"@);
}

/// A log entry is classified as the paging message that its line holds, and
/// fails as the extraction of its line fails.
pub proof fn lemma_log_entry(payload: PayloadView, stamp: PayloadView, line: Seq<char>)
    requires
        is_log_entry(payload, stamp, line),
    ensures
        classify_spec(payload) == match extract_spec(line) {
            Ok(message) => Ok::<EventView, ClassificationError>(EventView::NewMessage(message)),
            Err(error) => Err(ClassificationError::Extraction(error)),
        },
{
}

} // verus!
