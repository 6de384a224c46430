//! From one notification to one outbound message, or to none.

use vstd::prelude::*;

use crate::classify::{
    classify, classify_spec, is_log_entry, is_status_update, lemma_log_entry, lemma_tags_differ,
    lemma_timeslot_update, lemma_unknown_kind_update, unsigned, ClassificationError,
};
use crate::decode::{check_digit_runs, json_parsed, parse_checked, parser_takes};
use crate::encode::{decimal, encode, encode_spec, message_spec};
use crate::event::{DomainEvent, EventView};
use crate::extract::{extract_spec, PatternExtractor};
use crate::payload::{PayloadView, RawPayload};
use crate::topics::{route, route_spec, TopicConfig, TopicsView};

verus! {

/// An outbound message, or the lack of one, as contracts see it: the topic
/// and the body.
pub open spec fn outbound_view(outbound: Option<(String, Vec<u8>)>) -> Option<
    (Seq<char>, Seq<u8>),
> {
    match outbound {
        Some((topic, body)) => Some((topic@, body@)),
        None => None,
    }
}

/// A message, or the error in its place, as contracts see it.
pub open spec fn attempt_view(outcome: Result<(String, Vec<u8>), ClassificationError>) -> Result<
    (Seq<char>, Seq<u8>),
    ClassificationError,
> {
    match outcome {
        Ok((topic, body)) => Ok((topic@, body@)),
        Err(error) => Err(error),
    }
}

/// What is published for a payload that is classified: the body of its event
/// on the topic of its kind. For any other payload, the error that its
/// classification fails with.
pub open spec fn try_translate_spec(payload: PayloadView, topics: TopicsView) -> Result<
    (Seq<char>, Seq<u8>),
    ClassificationError,
> {
    match classify_spec(payload) {
        Ok(event) => Ok((route_spec(event, topics), encode_spec(event))),
        Err(error) => Err(error),
    }
}

/// What is published for a payload: for one that is classified, the body of
/// its event on the topic of its kind; for any other, nothing.
pub open spec fn translate_spec(payload: PayloadView, topics: TopicsView) -> Option<
    (Seq<char>, Seq<u8>),
> {
    match try_translate_spec(payload, topics) {
        Ok(message) => Some(message),
        Err(_) => None,
    }
}

/// Pairs the body of `event` with the topic of its kind.
pub fn outbound(event: &DomainEvent, topics: &TopicConfig) -> (message: (String, Vec<u8>))
    ensures
        message.0@ == route_spec(event@, topics@),
        message.1@ == encode_spec(event@),
{
    (route(event, topics).clone(), encode(event))
}

/// Translates one payload, or says why it is dropped: the outcome is the
/// message to publish, or the error that the classification failed with.
pub fn try_translate(
    payload: &RawPayload,
    topics: &TopicConfig,
    extractor: &PatternExtractor,
) -> (outcome: Result<(String, Vec<u8>), ClassificationError>)
    ensures
        attempt_view(outcome) == try_translate_spec(payload@, topics@),
{
    match classify(payload, extractor) {
        Ok(event) => Ok(outbound(&event, topics)),
        Err(error) => Err(error),
    }
}

/// Translates one payload. A payload that is not classified is dropped: the
/// outcome is none, and nothing is encoded.
pub fn translate(payload: &RawPayload, topics: &TopicConfig, extractor: &PatternExtractor) -> (message:
    Option<(String, Vec<u8>)>)
    ensures
        outbound_view(message) == translate_spec(payload@, topics@),
{
    match try_translate(payload, topics, extractor) {
        Ok(message) => Some(message),
        Err(_) => None,
    }
}

/// Why nothing is published for the text of a notification.
#[derive(Debug, Clone, Copy, PartialEq, Eq)]
pub enum DropReason {
    /// The text holds more decimal digits in a row than the parser is
    /// handed; see [`crate::decode::DIGIT_RUN_LIMIT`].
    TooManyDigits,
    /// The text is no JSON.
    NotJson,
    /// The text is JSON, and its classification failed.
    Unclassified(ClassificationError),
}

/// The outcome for the text of a notification as contracts see it.
pub open spec fn outcome_view(outcome: Result<(String, Vec<u8>), DropReason>) -> Result<
    (Seq<char>, Seq<u8>),
    DropReason,
> {
    match outcome {
        Ok((topic, body)) => Ok((topic@, body@)),
        Err(reason) => Err(reason),
    }
}

/// What is published for the text of a notification: the translation of the
/// payload that the text parses to, or the reason why there is none. A text
/// that the parser is not handed is dropped before anything else.
pub open spec fn translate_text_spec(text: Seq<char>, topics: TopicsView) -> Result<
    (Seq<char>, Seq<u8>),
    DropReason,
> {
    if !parser_takes(text) {
        Err(DropReason::TooManyDigits)
    } else {
        match json_parsed(text) {
            Some(payload) => match try_translate_spec(payload, topics) {
                Ok(message) => Ok(message),
                Err(error) => Err(DropReason::Unclassified(error)),
            },
            None => Err(DropReason::NotJson),
        }
    }
}

/// Translates one notification from its text, or says why it is dropped.
pub fn translate_text(text: &str, topics: &TopicConfig, extractor: &PatternExtractor) -> (outcome:
    Result<(String, Vec<u8>), DropReason>)
    ensures
        outcome_view(outcome) == translate_text_spec(text@, topics@),
{
    if !check_digit_runs(text) {
        return Err(DropReason::TooManyDigits);
    }
    match parse_checked(text) {
        Some(payload) => match try_translate(&payload, topics, extractor) {
            Ok(message) => Ok(message),
            Err(error) => Err(DropReason::Unclassified(error)),
        },
        None => Err(DropReason::NotJson),
    }
}

/// A status update tagged `timeslot` that holds an integer from 0 to 255 is
/// classified as that timeslot, routed to the timeslot topic, and published
/// there as the number.
pub proof fn lemma_timeslot_update_published(payload: PayloadView, slot: u8, topics: TopicsView)
    requires
        is_status_update(payload, "timeslot"@, unsigned(slot as u64)),
    ensures
        classify_spec(payload) == Ok::<EventView, ClassificationError>(EventView::Timeslot(slot)),
        route_spec(EventView::Timeslot(slot), topics) == topics.timeslot,
        translate_spec(payload, topics) == Some((topics.timeslot, decimal(slot as nat))),
{
    lemma_timeslot_update(payload, slot);
}

/// A status update tagged `unknown` is of an unknown kind, whatever it holds,
/// and nothing is published for it.
pub proof fn lemma_unknown_update_dropped(payload: PayloadView, value: PayloadView, topics: TopicsView)
    requires
        is_status_update(payload, "unknown"@, value),
    ensures
        classify_spec(payload) == Err::<EventView, ClassificationError>(
            ClassificationError::UnknownStatusKind,
        ),
        translate_spec(payload, topics) is None,
{
    lemma_tags_differ();
    lemma_unknown_kind_update(payload, "unknown"@, value);
}

/// A log entry whose line holds a paging message is classified as that
/// message, routed to the topic for new messages, and published there as an
/// object.
pub proof fn lemma_log_entry_published(
    payload: PayloadView,
    stamp: PayloadView,
    line: Seq<char>,
    topics: TopicsView,
)
    requires
        is_log_entry(payload, stamp, line),
        extract_spec(line) is Ok,
    ensures
        classify_spec(payload) == Ok::<EventView, ClassificationError>(
            EventView::NewMessage(extract_spec(line)->Ok_0),
        ),
        route_spec(EventView::NewMessage(extract_spec(line)->Ok_0), topics) == topics.new_message,
        translate_spec(payload, topics) == Some(
            (topics.new_message, message_spec(extract_spec(line)->Ok_0)),
        ),
{
    lemma_log_entry(payload, stamp, line);
}

/// A log entry whose line holds no paging message fails with the error of
/// the extraction, and nothing is published for it.
pub proof fn lemma_log_entry_dropped(
    payload: PayloadView,
    stamp: PayloadView,
    line: Seq<char>,
    topics: TopicsView,
)
    requires
        is_log_entry(payload, stamp, line),
        extract_spec(line) is Err,
    ensures
        classify_spec(payload) == Err::<EventView, ClassificationError>(
            ClassificationError::Extraction(extract_spec(line)->Err_0),
        ),
        translate_spec(payload, topics) is None,
{
    lemma_log_entry(payload, stamp, line);
}

/// Whatever fails to be classified is dropped, and only that.
pub proof fn lemma_dropped_iff_unclassified(payload: PayloadView, topics: TopicsView)
    ensures
        translate_spec(payload, topics) is None <==> classify_spec(payload) is Err,
{
}

/// Translating the same payload for the same topics again gives the same
/// message: whatever two calls of [`translate`] return for payloads that hold
/// the same and topics that are named the same, the topics are the same and
/// the bodies are the same, or both are none. Which extractor is handed in
/// does not matter.
pub proof fn lemma_translate_repeats(
    first_payload: &RawPayload,
    second_payload: &RawPayload,
    first_topics: &TopicConfig,
    second_topics: &TopicConfig,
    first_extractor: &PatternExtractor,
    second_extractor: &PatternExtractor,
    first: Option<(String, Vec<u8>)>,
    second: Option<(String, Vec<u8>)>,
)
    requires
        first_payload@ == second_payload@,
        first_topics@ == second_topics@,
        call_ensures(translate, (first_payload, first_topics, first_extractor), first),
        call_ensures(translate, (second_payload, second_topics, second_extractor), second),
    ensures
        outbound_view(first) == outbound_view(second),
{
}

} // verus!
