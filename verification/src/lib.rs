//! Translation of pager status notifications into topic-addressed messages.
//!
//! A notification arrives as a loosely typed structured value. It is
//! classified into one of four typed events, and the event is encoded and
//! paired with the topic configured for its kind. Every function here is a
//! pure function of its arguments; connections, files and the publishing loop
//! belong to the program around this library.

pub mod classify;
pub mod decode;
pub mod encode;
pub mod event;
pub mod extract;
pub mod payload;
pub mod pipeline;
pub mod text;
pub mod topics;

pub use classify::{classify, status_event, ClassificationError, StatusKind};
pub use decode::{check_digit_runs, parse_payload, DIGIT_RUN_LIMIT};
pub use encode::{encode, encode_message};
pub use event::{DomainEvent, PagingMessage};
pub use extract::{
    message_from_captures, parse_address, ExtractionError, PatternExtractor, LOG_PATTERN,
};
pub use payload::{RawNumber, RawPayload};
pub use pipeline::{outbound, translate, translate_text, try_translate, DropReason};
pub use topics::{route, TopicConfig};
