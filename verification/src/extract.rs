//! Recovery of a paging message from one line of diagnostic log output.
//!
//! A line that reports a received message names the pager address after
//! `addr:` and carries the text in double quotes after `data:`. The shape is
//! matched by a regular expression, compiled once when a
//! [`PatternExtractor`] is made. What the expression matches is the work of
//! the `regex` crate; what is made of the match is verified here.

use vstd::prelude::*;
use vstd::utf8::is_ascii_chars;

use regex::Regex;

use crate::event::{PagingMessage, PagingMessageView};
use crate::payload::{views_of, PayloadView, RawPayload};

verus! {

/// The shape of a log line that reports a received message: the marker text,
/// later `addr:` and a run of digits, later `data:` and a quoted text, and at
/// least one more character after the closing quote. The digits are the first
/// group and the text between the quotes is the second.
pub const LOG_PATTERN: &'static str = "Received Message.+addr:\\s+(\\d+).+data:\\s+\"(.*)\".+";

/// Why no paging message was recovered.
#[derive(Debug, Clone, Copy, PartialEq, Eq)]
pub enum ExtractionError {
    /// The log entry has no second element, or it is no string.
    NotText,
    /// The line does not have the shape of [`LOG_PATTERN`].
    NoMatch,
    /// The address is no decimal number that fits in 32 bits.
    BadAddress,
}

/// `regex::Regex`, a compiled regular expression. Nothing inside it is read
/// here.
#[verifier::external_type_specification]
#[verifier::external_body]
pub struct ExRegex(regex::Regex);

/// `regex::Error`, why a pattern did not compile. Nothing inside it is read
/// here.
#[verifier::external_type_specification]
#[verifier::external_body]
pub struct ExRegexError(regex::Error);

/// Whether `regex::Regex::new` compiles `pattern`.
pub uninterp spec fn regex_accepts(pattern: Seq<char>) -> bool;

/// The pattern that `regex::Regex::new` compiled `expression` from; none for
/// an expression that was made in another way, with options of its own.
pub uninterp spec fn compiled_from(expression: Regex) -> Option<Seq<char>>;

/// What `regex::Regex::captures` finds in `haystack` for the expression that
/// `regex::Regex::new` compiles from `pattern`: nothing where there is no
/// match, else for each group, the whole match first, the part of `haystack`
/// that it matched, if it took part in the match.
pub uninterp spec fn regex_captures(pattern: Seq<char>, haystack: Seq<char>) -> Option<
    Seq<Option<Seq<char>>>,
>;

/// `regex::Regex::new`: whether a pattern compiles depends on the pattern
/// alone, and what it returns is the expression compiled from that pattern.
pub assume_specification[ regex::Regex::new ](re: &str) -> (compiled: Result<Regex, regex::Error>)
    ensures
        compiled is Ok <==> regex_accepts(re@),
        compiled matches Ok(expression) ==> compiled_from(expression) == Some(re@),
;

/// The groups of a match as contracts see them.
pub open spec fn groups_view(groups: Seq<Option<String>>) -> Seq<Option<Seq<char>>> {
    Seq::new(
        groups.len(),
        |i: int|
            match groups[i] {
                Some(text) => Some(text@),
                None => None,
            },
    )
}

/// The outcome of a search as contracts see it.
pub open spec fn captures_view(captures: Option<Vec<Option<String>>>) -> Option<
    Seq<Option<Seq<char>>>,
> {
    match captures {
        Some(groups) => Some(groups_view(groups@)),
        None => None,
    }
}

/// Whether `part` stands in `whole` in one piece.
pub open spec fn is_part_of(part: Seq<char>, whole: Seq<char>) -> bool {
    exists|from: int, to: int|
        0 <= from <= to <= whole.len() && part == #[trigger] whole.subrange(from, to)
}

/// `regex::Regex::captures`, with each group of the leftmost match, as
/// `regex::Captures::iter` yields them, copied out as a string by
/// `regex::Match::as_str`. For an expression that `regex::Regex::new`
/// compiled, the outcome depends on the pattern and the text alone. A group
/// is the text between two offsets of the match, so it stands in the text
/// that was searched in one piece.
#[verifier::external_body]
fn captures(expression: &Regex, haystack: &str) -> (found: Option<Vec<Option<String>>>)
    requires
        compiled_from(*expression) is Some,
    ensures
        captures_view(found) == regex_captures(compiled_from(*expression)->0, haystack@),
        found matches Some(groups) ==> forall|i: int|
            0 <= i < groups@.len() ==> (#[trigger] groups@[i] matches Some(group) ==> is_part_of(
                group@,
                haystack@,
            )),
{
    expression.captures(haystack).map(
        |groups| groups.iter().map(|group| group.map(|m| m.as_str().to_string())).collect(),
    )
}

/// Whether `c` is one of the ten decimal digits.
pub open spec fn is_decimal_digit(c: char) -> bool {
    '0' <= c && c <= '9'
}

/// The number that a run of decimal digits writes.
pub open spec fn decimal_value(digits: Seq<char>) -> nat
    decreases digits.len(),
{
    if digits.len() == 0 {
        0
    } else {
        decimal_value(digits.drop_last()) * 10 + (digits.last() as u32 - '0' as u32) as nat
    }
}

/// The address that `digits` writes: they are one or more decimal digits and
/// nothing else, and their value fits in 32 bits.
pub open spec fn address_of(digits: Seq<char>) -> Option<u32> {
    if digits.len() > 0 && (forall|i: int|
        0 <= i < digits.len() ==> is_decimal_digit(#[trigger] digits[i])) && decimal_value(digits)
        <= u32::MAX {
        Some(decimal_value(digits) as u32)
    } else {
        None
    }
}

/// A run of digits writes a number no smaller than any of its beginnings.
pub proof fn lemma_decimal_value_grows(digits: Seq<char>, n: int)
    requires
        0 <= n <= digits.len(),
        forall|i: int| 0 <= i < digits.len() ==> is_decimal_digit(#[trigger] digits[i]),
    ensures
        decimal_value(digits.subrange(0, n)) <= decimal_value(digits),
    decreases digits.len(),
{
    if n == digits.len() {
        assert(digits.subrange(0, n) =~= digits);
    } else {
        let shorter = digits.drop_last();
        assert(shorter.subrange(0, n) =~= digits.subrange(0, n));
        lemma_decimal_value_grows(shorter, n);
    }
}

/// Reads a pager address written as decimal digits.
pub fn parse_address(digits: &str) -> (address: Option<u32>)
    ensures
        address == address_of(digits@),
{
    if !digits.is_ascii() {
        return None;
    }
    let bytes = digits.as_bytes();
    proof {
        vstd::string::is_ascii_spec_bytes(digits);
    }
    if bytes.len() == 0 {
        return None;
    }
    let mut value: u64 = 0;
    let mut i: usize = 0;
    while i < bytes.len()
        invariant
            i <= bytes.len(),
            bytes@.len() == digits@.len(),
            is_ascii_chars(digits@),
            forall|j: int| 0 <= j < bytes@.len() ==> bytes@[j] == digits@[j] as u8,
            forall|j: int| 0 <= j < i ==> is_decimal_digit(#[trigger] digits@[j]),
            value == decimal_value(digits@.subrange(0, i as int)),
            value <= u32::MAX,
        decreases bytes.len() - i,
    {
        let byte = bytes[i];
        if byte < 48 || byte > 57 {
            assert(!is_decimal_digit(digits@[i as int]));
            return None;
        }
        assert(is_decimal_digit(digits@[i as int]));
        let next = value * 10 + (byte - 48) as u64;
        proof {
            let longer = digits@.subrange(0, i + 1);
            assert(longer.drop_last() =~= digits@.subrange(0, i as int));
            assert(longer.last() == digits@[i as int]);
            assert(next == decimal_value(longer));
        }
        if next > u32::MAX as u64 {
            proof {
                if forall|j: int| 0 <= j < digits@.len() ==> is_decimal_digit(#[trigger] digits@[j]) {
                    lemma_decimal_value_grows(digits@, i + 1);
                }
            }
            return None;
        }
        value = next;
        i += 1;
    }
    assert(digits@.subrange(0, i as int) =~= digits@);
    Some(value as u32)
}

/// The message that the groups of a match hold: the first group is the
/// address and the second the text. No match, or a match without one of the
/// two groups, holds none.
pub open spec fn message_of(captures: Option<Seq<Option<Seq<char>>>>) -> Result<
    PagingMessageView,
    ExtractionError,
> {
    match captures {
        None => Err(ExtractionError::NoMatch),
        Some(groups) => if groups.len() > 2 && groups[1] is Some && groups[2] is Some {
            match address_of(groups[1]->0) {
                Some(destination) => Ok(PagingMessageView { destination, text: groups[2]->0 }),
                None => Err(ExtractionError::BadAddress),
            }
        } else {
            Err(ExtractionError::NoMatch)
        },
    }
}

/// The message that a log line holds.
pub open spec fn extract_spec(line: Seq<char>) -> Result<PagingMessageView, ExtractionError> {
    message_of(regex_captures(LOG_PATTERN@, line))
}

/// The message that a log entry holds: the one in its second element, which
/// must be a string.
pub open spec fn extract_entry_spec(entry: Seq<PayloadView>) -> Result<
    PagingMessageView,
    ExtractionError,
> {
    if entry.len() > 1 && entry[1] is Text {
        extract_spec(entry[1]->Text_0)
    } else {
        Err(ExtractionError::NotText)
    }
}

/// The outcome of an extraction as contracts see it.
pub open spec fn extraction_view(outcome: Result<PagingMessage, ExtractionError>) -> Result<
    PagingMessageView,
    ExtractionError,
> {
    match outcome {
        Ok(message) => Ok(message@),
        Err(error) => Err(error),
    }
}

/// Builds the paging message from the outcome of a search for
/// [`LOG_PATTERN`].
pub fn message_from_captures(captures: &Option<Vec<Option<String>>>) -> (message: Result<
    PagingMessage,
    ExtractionError,
>)
    ensures
        extraction_view(message) == message_of(captures_view(*captures)),
{
    match captures {
        None => Err(ExtractionError::NoMatch),
        Some(groups) => {
            if groups.len() <= 2 {
                return Err(ExtractionError::NoMatch);
            }
            match (&groups[1], &groups[2]) {
                (Some(digits), Some(text)) => match parse_address(digits.as_str()) {
                    Some(destination) => Ok(PagingMessage { destination, text: text.clone() }),
                    None => Err(ExtractionError::BadAddress),
                },
                _ => Err(ExtractionError::NoMatch),
            }
        },
    }
}

/// The compiled [`LOG_PATTERN`]. It is made once and shared by every
/// extraction; nothing changes it afterwards.
pub struct PatternExtractor {
    expression: Regex,
}

impl PatternExtractor {
    /// The expression is the one compiled from [`LOG_PATTERN`].
    #[verifier::type_invariant]
    spec fn holds_log_pattern(&self) -> bool {
        compiled_from(self.expression) == Some(LOG_PATTERN@)
    }

    /// Compiles [`LOG_PATTERN`]. There is no extractor where the pattern
    /// does not compile.
    pub fn new() -> (extractor: Option<PatternExtractor>)
        ensures
            extractor is Some <==> regex_accepts(LOG_PATTERN@),
    {
        match Regex::new(LOG_PATTERN) {
            Ok(expression) => Some(PatternExtractor { expression }),
            Err(_) => None,
        }
    }

    /// Recovers the paging message from one log line. The text of the
    /// message stands in the line as it is.
    pub fn extract_line(&self, line: &str) -> (message: Result<PagingMessage, ExtractionError>)
        ensures
            extraction_view(message) == extract_spec(line@),
            message matches Ok(found) ==> is_part_of(found.text@, line@),
    {
        proof {
            use_type_invariant(self);
        }
        let found = captures(&self.expression, line);
        let message = message_from_captures(&found);
        proof {
            if message is Ok {
                let groups = found->0;
                assert(groups@[2] matches Some(group) && group@ == message->Ok_0.text@);
            }
        }
        message
    }

    /// Recovers the paging message from a log entry, whose second element is
    /// the log line.
    pub fn extract(&self, entry: &Vec<RawPayload>) -> (message: Result<
        PagingMessage,
        ExtractionError,
    >)
        ensures
            extraction_view(message) == extract_entry_spec(views_of(entry@)),
            message matches Ok(found) ==> entry@.len() > 1 && entry@[1]@ is Text && is_part_of(
                found.text@,
                entry@[1]@->Text_0,
            ),
    {
        if entry.len() < 2 {
            return Err(ExtractionError::NotText);
        }
        match entry[1].as_text() {
            Some(line) => self.extract_line(line),
            None => Err(ExtractionError::NotText),
        }
    }
}

} // verus!
