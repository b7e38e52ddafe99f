use matrixbot::event::{DecodedEvent, EventKind, TimelineEvent};
use matrixbot::ident::{EventId, UserId};
use matrixbot::purge::{plan_sweep, Sweep, PAGE_LIMIT};

fn user(text: &str) -> UserId {
    UserId::parse(text.to_owned()).unwrap()
}

fn id(text: &str) -> EventId {
    EventId::parse(text.to_owned()).unwrap()
}

fn event(event_id: &str, sender: &str, kind: EventKind, tag: Option<&str>) -> TimelineEvent {
    TimelineEvent {
        event_type: tag.map(|t| t.to_owned()),
        decoded: Some(DecodedEvent { event_id: id(event_id), sender: user(sender), kind }),
    }
}

fn message(event_id: &str, sender: &str) -> TimelineEvent {
    event(event_id, sender, EventKind::RoomMessage, Some("m.room.message"))
}

fn undecodable(tag: Option<&str>) -> TimelineEvent {
    TimelineEvent { event_type: tag.map(|t| t.to_owned()), decoded: None }
}

#[test]
fn page_limit_is_ten() {
    assert_eq!(PAGE_LIMIT, 10);
}

#[test]
fn sweep_takes_the_three_of_the_author_and_spares_the_two_of_others() {
    let page = vec![
        message("$1:example.org", "@spammer:example.org"),
        message("$2:example.org", "@alice:example.org"),
        message("$3:example.org", "@spammer:example.org"),
        message("$4:example.org", "@bob:example.org"),
        message("$5:example.org", "@spammer:example.org"),
    ];
    assert_eq!(
        plan_sweep(&page, &user("@spammer:example.org")),
        Sweep {
            targets: vec![id("$1:example.org"), id("$3:example.org"), id("$5:example.org")],
            complete: true
        }
    );
}

#[test]
fn sweep_compares_senders_exactly() {
    let page = vec![
        message("$1:example.org", "@spammer:example.org"),
        message("$2:example.org", "@spammer:example.com"),
        message("$3:example.org", "@spammer2:example.org"),
        message("$4:example.org", "@spamme:example.org"),
    ];
    assert_eq!(
        plan_sweep(&page, &user("@spammer:example.org")),
        Sweep { targets: vec![id("$1:example.org")], complete: true }
    );
}

#[test]
fn sweep_of_empty_page_does_nothing() {
    assert_eq!(
        plan_sweep(&Vec::new(), &user("@spammer:example.org")),
        Sweep { targets: vec![], complete: true }
    );
}

#[test]
fn sweep_skips_events_without_the_message_tag() {
    let page = vec![
        event("$1:example.org", "@spammer:example.org", EventKind::RoomMessage, Some("m.reaction")),
        event("$2:example.org", "@spammer:example.org", EventKind::RoomMessage, None),
        event("$3:example.org", "@spammer:example.org", EventKind::RoomMessage, Some("m.room.message ")),
        undecodable(Some("m.room.member")),
        undecodable(None),
        message("$6:example.org", "@spammer:example.org"),
    ];
    assert_eq!(
        plan_sweep(&page, &user("@spammer:example.org")),
        Sweep { targets: vec![id("$6:example.org")], complete: true }
    );
}

#[test]
fn sweep_skips_edits_redactions_and_state() {
    let tag = Some("m.room.message");
    let page = vec![
        event("$1:example.org", "@spammer:example.org", EventKind::Edit, tag),
        event("$2:example.org", "@spammer:example.org", EventKind::Redacted, tag),
        event("$3:example.org", "@spammer:example.org", EventKind::State, tag),
        event("$4:example.org", "@spammer:example.org", EventKind::OtherMessageLike, tag),
        event("$5:example.org", "@spammer:example.org", EventKind::RoomMessage, tag),
    ];
    assert_eq!(
        plan_sweep(&page, &user("@spammer:example.org")),
        Sweep { targets: vec![id("$4:example.org"), id("$5:example.org")], complete: true }
    );
}

#[test]
fn sweep_stops_at_a_message_that_does_not_decode() {
    let page = vec![
        message("$1:example.org", "@spammer:example.org"),
        undecodable(Some("m.room.message")),
        message("$3:example.org", "@spammer:example.org"),
    ];
    assert_eq!(
        plan_sweep(&page, &user("@spammer:example.org")),
        Sweep { targets: vec![id("$1:example.org")], complete: false }
    );
    let page = vec![undecodable(Some("m.room.message"))];
    assert_eq!(
        plan_sweep(&page, &user("@spammer:example.org")),
        Sweep { targets: vec![], complete: false }
    );
}

#[test]
fn sweep_keeps_the_order_of_the_page() {
    let page = vec![
        message("$c:example.org", "@spammer:example.org"),
        message("$a:example.org", "@spammer:example.org"),
        message("$b:example.org", "@spammer:example.org"),
    ];
    assert_eq!(
        plan_sweep(&page, &user("@spammer:example.org")).targets,
        vec![id("$c:example.org"), id("$a:example.org"), id("$b:example.org")]
    );
}
