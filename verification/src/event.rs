//! The typed events that a notification can be classified into.

use vstd::prelude::*;

verus! {

/// A decoded paging message: the pager address it is for, and its text.
#[derive(Debug, PartialEq, Eq)]
pub struct PagingMessage {
    pub destination: u32,
    pub text: String,
}

/// A [`PagingMessage`] as contracts see it.
pub struct PagingMessageView {
    pub destination: u32,
    pub text: Seq<char>,
}

impl View for PagingMessage {
    type V = PagingMessageView;

    open spec fn view(&self) -> PagingMessageView {
        PagingMessageView { destination: self.destination, text: self.text@ }
    }
}

/// One status event. The set of kinds is closed: a notification that fits
/// none of them is a classification failure, never a default kind.
#[derive(Debug, PartialEq, Eq)]
pub enum DomainEvent {
    /// Index of the current transmission timeslot.
    Timeslot(u8),
    /// Whether the transmitter is active.
    Transmitting(bool),
    /// Number of messages waiting to be sent.
    QueueLength(usize),
    /// A paging message that was received.
    NewMessage(PagingMessage),
}

/// A [`DomainEvent`] as contracts see it.
pub enum EventView {
    Timeslot(u8),
    Transmitting(bool),
    QueueLength(usize),
    NewMessage(PagingMessageView),
}

impl View for DomainEvent {
    type V = EventView;

    open spec fn view(&self) -> EventView {
        match self {
            DomainEvent::Timeslot(slot) => EventView::Timeslot(*slot),
            DomainEvent::Transmitting(active) => EventView::Transmitting(*active),
            DomainEvent::QueueLength(length) => EventView::QueueLength(*length),
            DomainEvent::NewMessage(message) => EventView::NewMessage(message@),
        }
    }
}

} // verus!
