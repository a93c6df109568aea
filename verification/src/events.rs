//! Model of one room event as the reply scanner sees it, and the scanner
//! itself.
//!
//! A history page hands the scanner events whose payload is one of two
//! message shapes — a protected (content-hidden) message or an ordinary
//! message — each of which may carry a relation to another event. The
//! scanner extracts the reply edge when, and only when, the relation is a
//! reply; every other shape, including payloads the transport could not
//! decode, yields no edge.

use vstd::prelude::*;

verus! {

/// Relation carried by a message payload.
pub enum MessageRelation {
    /// The message is a threaded reply to the event with this identifier.
    ReplyTo(String),
    /// A relation of some other kind (an edit, a reaction, ...).
    OtherRelation,
}

/// Payload of one historical room event, by shape.
pub enum EventPayload {
    /// A protected (content-hidden) message, with its relation if any.
    Protected(Option<MessageRelation>),
    /// An ordinary message, with its relation if any.
    Ordinary(Option<MessageRelation>),
    /// An event of a non-message kind.
    OtherKind,
    /// A payload the transport could not decode; scanned best-effort as
    /// carrying nothing.
    Undecodable,
}

/// One historical room event.
pub struct RoomEvent {
    /// Identifier of this event.
    pub event_id: String,
    /// Identifier of the sender.
    pub sender: String,
    /// The event's payload.
    pub payload: EventPayload,
}

/// A reply edge: `from_event` is a threaded reply to `to_event`.
pub struct ReplyEdge {
    pub from_event: String,
    pub to_event: String,
}

/// The event identifier a payload replies to, if its relation is a reply.
pub open spec fn spec_reply_target(p: EventPayload) -> Option<Seq<char>> {
    match p {
        EventPayload::Protected(Some(MessageRelation::ReplyTo(t))) => Some(t@),
        EventPayload::Ordinary(Some(MessageRelation::ReplyTo(t))) => Some(t@),
        _ => None,
    }
}

/// Extracts the reply edge of one event: `Some` exactly when the payload is
/// a message — protected or ordinary — whose relation is a reply, and then
/// the edge runs from this event to the reply's target.
pub fn find_reply_edge(event: &RoomEvent) -> (r: Option<ReplyEdge>)
    ensures
        match r {
            Some(edge) => spec_reply_target(event.payload) == Some(edge.to_event@)
                && edge.from_event@ == event.event_id@,
            None => spec_reply_target(event.payload) is None,
        },
{
    match &event.payload {
        EventPayload::Protected(Some(MessageRelation::ReplyTo(target))) => Some(ReplyEdge {
            from_event: event.event_id.clone(),
            to_event: target.clone(),
        }),
        EventPayload::Ordinary(Some(MessageRelation::ReplyTo(target))) => Some(ReplyEdge {
            from_event: event.event_id.clone(),
            to_event: target.clone(),
        }),
        _ => None,
    }
}

} // verus!
