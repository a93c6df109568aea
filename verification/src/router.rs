//! Routing decisions for incoming room messages.
//!
//! The dispatch loop hands the router plain values — the message body, the
//! downloaded image bytes, the sender — and performs whatever action the
//! router decides; the router itself owns no transport.

use vstd::prelude::*;

verus! {

use crate::exif::extract_location_from_exif;
use crate::exif::spec_coordinate_matches;
use crate::exif::spec_extract_location;
use crate::geo::GeoCoordinate;

/// What the dispatch loop should do with one incoming message.
pub enum MessageAction {
    /// Send a farewell text and leave the room.
    ByeAndLeave,
    /// Reply in-thread to the image with the decoded location.
    LocationReply { coordinate: GeoCoordinate, in_reply_to: String },
    /// Mark the image with a failure reaction: it carries no usable
    /// location.
    FailureMarker { in_reply_to: String },
    /// Nothing to do.
    Nothing,
}

/// A message is left unhandled exactly when it came from this agent itself
/// and the configuration says to ignore such messages.
pub fn should_skip_own_message(ignore_own_messages: bool, sender: &String, own_id: &String) -> (b:
    bool)
    ensures
        b == (ignore_own_messages && sender@ == own_id@),
{
    ignore_own_messages && *sender == *own_id
}

/// Routes a text message: only the leave command is acted on.
pub fn plan_text_response(body: &String) -> (a: MessageAction)
    ensures
        body@ == "!leave"@ ==> a is ByeAndLeave,
        body@ != "!leave"@ ==> a is Nothing,
{
    let command: String = "!leave".to_owned();
    if *body == command {
        MessageAction::ByeAndLeave
    } else {
        MessageAction::Nothing
    }
}

/// Routes a downloaded image: a location reply in-thread when its metadata
/// decodes to a position, otherwise a failure marker on the image's event.
pub fn plan_image_response(data: &[u8], event_id: &String) -> (a: MessageAction)
    ensures
        match a {
            MessageAction::LocationReply { coordinate, in_reply_to } => {
                &&& spec_extract_location(data@) is Ok
                &&& coordinate.wf()
                &&& spec_coordinate_matches(coordinate, spec_extract_location(data@)->Ok_0)
                &&& in_reply_to@ == event_id@
            },
            MessageAction::FailureMarker { in_reply_to } => {
                &&& spec_extract_location(data@) is Err
                &&& in_reply_to@ == event_id@
            },
            _ => false,
        },
{
    match extract_location_from_exif(data) {
        Ok(coordinate) => MessageAction::LocationReply {
            coordinate,
            in_reply_to: event_id.clone(),
        },
        Err(_) => MessageAction::FailureMarker { in_reply_to: event_id.clone() },
    }
}

} // verus!
