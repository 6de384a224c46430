//! Topic names, and the choice of a topic for an event.

use vstd::prelude::*;

use crate::event::{DomainEvent, EventView};

verus! {

/// The five topic names, one per category. They are read once at startup and
/// only read afterwards.
#[derive(Debug, Clone, PartialEq, Eq)]
pub struct TopicConfig {
    /// Where the online and offline markers go. No event is routed here.
    pub availability: String,
    pub timeslot: String,
    pub queue_length: String,
    pub transmitting: String,
    pub new_message: String,
}

/// A [`TopicConfig`] as contracts see it.
pub struct TopicsView {
    pub availability: Seq<char>,
    pub timeslot: Seq<char>,
    pub queue_length: Seq<char>,
    pub transmitting: Seq<char>,
    pub new_message: Seq<char>,
}

impl View for TopicConfig {
    type V = TopicsView;

    open spec fn view(&self) -> TopicsView {
        TopicsView {
            availability: self.availability@,
            timeslot: self.timeslot@,
            queue_length: self.queue_length@,
            transmitting: self.transmitting@,
            new_message: self.new_message@,
        }
    }
}

/// The topic of an event: the one configured for its kind.
pub open spec fn route_spec(event: EventView, topics: TopicsView) -> Seq<char> {
    match event {
        EventView::Timeslot(_) => topics.timeslot,
        EventView::Transmitting(_) => topics.transmitting,
        EventView::QueueLength(_) => topics.queue_length,
        EventView::NewMessage(_) => topics.new_message,
    }
}

/// Selects the topic that `event` is published on.
pub fn route<'a>(event: &DomainEvent, topics: &'a TopicConfig) -> (topic: &'a String)
    ensures
        topic@ == route_spec(event@, topics@),
{
    match event {
        DomainEvent::Timeslot(_) => &topics.timeslot,
        DomainEvent::Transmitting(_) => &topics.transmitting,
        DomainEvent::QueueLength(_) => &topics.queue_length,
        DomainEvent::NewMessage(_) => &topics.new_message,
    }
}

} // verus!
