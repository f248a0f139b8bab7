//! The filter stage between the event bus and one typed subscriber: it lets
//! through the push messages whose `type` member names the subscriber's kind
//! and drops everything else without ending the stream.
use vstd::prelude::*;

use crate::json::{json_str_member, str_member};

verus! {

/// What the filter stage receives from the event bus.
pub enum BusEvent {
    /// One published message.
    Message(String),
    /// The subscriber fell behind and this many of the oldest messages were lost.
    Lagged(u64),
    /// The bus is gone: nothing more will arrive.
    Closed,
}

/// What the filter stage does with one bus event.
#[derive(Debug, PartialEq, Eq)]
pub enum FilterStep {
    /// Decode the message for the subscriber.
    Forward(String),
    /// Drop it and wait for the next event.
    Skip,
    /// End the subscriber's stream.
    Stop,
}

/// Whether the `type` member of the message `text` is `kind`.
pub open spec fn is_of_kind(text: Seq<char>, kind: Seq<char>) -> bool {
    json_str_member(text, "type"@) == Some(kind)
}

/// The step taken on `event` by the filter for `kind`.
pub open spec fn filter_of(event: BusEvent, kind: Seq<char>) -> FilterStep {
    match event {
        BusEvent::Message(text) => if is_of_kind(text@, kind) {
            FilterStep::Forward(text)
        } else {
            FilterStep::Skip
        },
        BusEvent::Lagged(_) => FilterStep::Skip,
        BusEvent::Closed => FilterStep::Stop,
    }
}

/// Whether a message whose `type` member reads `message_kind` (`None` when
/// it has no string there) is of the kind `kind`.
pub fn is_kind(message_kind: Option<String>, kind: &str) -> (r: bool)
    ensures
        r == (message_kind matches Some(k) && k@ == kind@),
{
    match message_kind {
        Some(k) => k.eq(&kind.to_string()),
        None => false,
    }
}

/// Decides what the filter for `kind` does with one bus event.
pub fn filter_step(event: BusEvent, kind: &str) -> (r: FilterStep)
    ensures
        r == filter_of(event, kind@),
{
    match event {
        BusEvent::Message(text) => {
            if is_kind(str_member(text.as_str(), "type"), kind) {
                FilterStep::Forward(text)
            } else {
                FilterStep::Skip
            }
        },
        BusEvent::Lagged(_) => FilterStep::Skip,
        BusEvent::Closed => FilterStep::Stop,
    }
}

/// The messages a subscriber for `kind` is handed from `events`, up to the
/// point where its stream ends.
pub open spec fn delivered(events: Seq<BusEvent>, kind: Seq<char>) -> Seq<Seq<char>>
    decreases events.len(),
{
    if events.len() == 0 {
        Seq::empty()
    } else {
        let rest = delivered(events.drop_first(), kind);
        match filter_of(events[0], kind) {
            FilterStep::Forward(text) => seq![text@].add(rest),
            FilterStep::Skip => rest,
            FilterStep::Stop => Seq::empty(),
        }
    }
}

/// Whether the stream of a subscriber for `kind` is still open after `events`.
pub open spec fn still_open(events: Seq<BusEvent>, kind: Seq<char>) -> bool {
    forall|i: int| 0 <= i < events.len() ==> !(filter_of(#[trigger] events[i], kind) is Stop)
}

/// A subscriber for `kind` is handed only messages of that kind, and no
/// message (malformed, foreign or lost to lag) ends its stream: only the
/// closing of the bus does.
pub proof fn lemma_typed_stream(events: Seq<BusEvent>, kind: Seq<char>)
    ensures
        forall|i: int|
            0 <= i < delivered(events, kind).len() ==> is_of_kind(
                #[trigger] delivered(events, kind)[i],
                kind,
            ),
        still_open(events, kind) <==> forall|i: int|
            0 <= i < events.len() ==> !(#[trigger] events[i] is Closed),
    decreases events.len(),
{
    if events.len() > 0 {
        lemma_typed_stream(events.drop_first(), kind);
        let rest = delivered(events.drop_first(), kind);
        match filter_of(events[0], kind) {
            FilterStep::Forward(text) => {
                assert forall|i: int|
                    0 <= i < delivered(events, kind).len() implies is_of_kind(
                    #[trigger] delivered(events, kind)[i],
                    kind,
                ) by {
                    if i > 0 {
                        assert(delivered(events, kind)[i] == rest[i - 1]);
                    }
                }
            },
            _ => {},
        }
        assert forall|i: int| 0 <= i < events.len() implies (filter_of(#[trigger] events[i], kind) is Stop
            <==> events[i] is Closed) by {}
    }
}

} // verus!
