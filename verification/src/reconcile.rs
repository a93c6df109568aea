//! Redaction reconciliation: deciding which of this agent's own replies to
//! retract once the message they replied to has been redacted.
//!
//! The transport queries history for events authored by this agent, paged
//! backward (newest first), and hands one page to `plan_retractions`. The
//! plan lists, in page order, the identifiers of every event on the page
//! that is a reply to the redacted event. A redaction issued by this agent
//! itself is ignored and plans nothing.

use vstd::prelude::*;

verus! {

use crate::events::RoomEvent;
use crate::events::spec_reply_target;

/// The identifiers, in page order, of the events on `page` whose reply
/// target is `redacted`.
pub open spec fn spec_retraction_targets(page: Seq<RoomEvent>, redacted: Seq<char>) -> Seq<
    Seq<char>,
>
    decreases page.len(),
{
    if page.len() == 0 {
        Seq::empty()
    } else {
        let rest = spec_retraction_targets(page.drop_last(), redacted);
        if spec_reply_target(page.last().payload) == Some(redacted) {
            rest.push(page.last().event_id@)
        } else {
            rest
        }
    }
}

/// Decides which events to retract after a redaction: every event on the
/// page that replies to the redacted event, in page order — unless the
/// redaction came from this agent itself, in which case nothing is
/// retracted. The page is the transport's history query result, already
/// filtered to this agent's own events.
pub fn plan_retractions(
    redaction_sender: &String,
    agent_id: &String,
    redacted_event: &String,
    page: &Vec<RoomEvent>,
) -> (targets: Vec<String>)
    ensures
        redaction_sender@ == agent_id@ ==> targets@.len() == 0,
        redaction_sender@ != agent_id@ ==> targets@.map_values(|s: String| s@)
            == spec_retraction_targets(page@, redacted_event@),
{
    let mut targets: Vec<String> = Vec::new();
    if *redaction_sender == *agent_id {
        return targets;
    }
    let mut i: usize = 0;
    while i < page.len()
        invariant
            i <= page@.len(),
            targets@.map_values(|s: String| s@) == spec_retraction_targets(
                page@.take(i as int),
                redacted_event@,
            ),
        decreases page@.len() - i,
    {
        let event = &page[i];
        let is_match: bool = match crate::events::find_reply_edge(event) {
            Some(edge) => edge.to_event == *redacted_event,
            None => false,
        };
        if is_match {
            targets.push(event.event_id.clone());
        }
        proof {
            assert(page@.take(i + 1).drop_last() =~= page@.take(i as int));
            assert(page@.take(i + 1).last() == page@[i as int]);
        }
        i = i + 1;
    }
    proof {
        assert(page@.take(page@.len() as int) =~= page@);
    }
    targets
}

} // verus!
