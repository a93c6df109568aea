use geobot::events::{find_reply_edge, EventPayload, MessageRelation, RoomEvent};
use geobot::reconcile::plan_retractions;

fn event(id: &str, sender: &str, payload: EventPayload) -> RoomEvent {
    RoomEvent { event_id: id.to_owned(), sender: sender.to_owned(), payload }
}

fn reply(id: &str, sender: &str, target: &str) -> RoomEvent {
    event(id, sender, EventPayload::Ordinary(Some(MessageRelation::ReplyTo(target.to_owned()))))
}

#[test]
fn reply_edge_of_ordinary_message() {
    let e = reply("$reply", "@bot:example.org", "$target");
    let edge = find_reply_edge(&e).expect("a reply relation yields an edge");
    assert_eq!(edge.from_event, "$reply");
    assert_eq!(edge.to_event, "$target");
}

#[test]
fn reply_edge_of_protected_message() {
    let e = event(
        "$reply",
        "@bot:example.org",
        EventPayload::Protected(Some(MessageRelation::ReplyTo("$target".to_owned()))),
    );
    let edge = find_reply_edge(&e).expect("a protected reply yields an edge");
    assert_eq!(edge.from_event, "$reply");
    assert_eq!(edge.to_event, "$target");
}

#[test]
fn no_edge_for_other_shapes() {
    let own = "@bot:example.org";
    assert!(find_reply_edge(&event("$a", own, EventPayload::Ordinary(None))).is_none());
    assert!(
        find_reply_edge(
            &event("$b", own, EventPayload::Ordinary(Some(MessageRelation::OtherRelation)))
        )
        .is_none()
    );
    assert!(find_reply_edge(&event("$c", own, EventPayload::Protected(None))).is_none());
    assert!(find_reply_edge(&event("$d", own, EventPayload::OtherKind)).is_none());
    assert!(find_reply_edge(&event("$e", own, EventPayload::Undecodable)).is_none());
}

#[test]
fn retracts_exactly_the_replies_to_the_redacted_event() {
    let own = "@bot:example.org";
    let page = vec![
        reply("$newest", own, "$redacted"),
        reply("$unrelated", own, "$another"),
        event("$plain", own, EventPayload::Ordinary(None)),
        reply("$older", own, "$redacted"),
    ];
    let targets = plan_retractions(
        &"@someone:example.org".to_owned(),
        &own.to_owned(),
        &"$redacted".to_owned(),
        &page,
    );
    assert_eq!(targets, vec!["$newest".to_owned(), "$older".to_owned()]);
}

#[test]
fn own_redactions_trigger_no_retraction() {
    let own = "@bot:example.org";
    let page = vec![reply("$newest", own, "$redacted"), reply("$older", own, "$redacted")];
    let targets = plan_retractions(
        &own.to_owned(),
        &own.to_owned(),
        &"$redacted".to_owned(),
        &page,
    );
    assert!(targets.is_empty());
}

#[test]
fn empty_page_plans_nothing() {
    let targets = plan_retractions(
        &"@someone:example.org".to_owned(),
        &"@bot:example.org".to_owned(),
        &"$redacted".to_owned(),
        &Vec::new(),
    );
    assert!(targets.is_empty());
}
