use matrixbot::event::{DecodedEvent, EventKind, TimelineEvent};
use matrixbot::ident::{EventId, UserId};
use matrixbot::message::{reply_target, ReplyTarget};
use matrixbot::purge::{plan_sweep, Sweep};

fn decoded(event_id: &str, sender: &str, kind: EventKind) -> Option<DecodedEvent> {
    Some(DecodedEvent {
        event_id: EventId::parse(event_id.to_owned()).unwrap(),
        sender: UserId::parse(sender.to_owned()).unwrap(),
        kind,
    })
}

fn text_message(event_id: &str, sender: &str) -> String {
    format!(
        r#"{{"type":"m.room.message","event_id":"{}","sender":"{}","origin_server_ts":1700000000000,"content":{{"msgtype":"m.text","body":"buy now"}}}}"#,
        event_id, sender
    )
}

#[test]
fn raw_room_message_decodes_as_room_message() {
    let event = TimelineEvent::from_json(&text_message("$1:example.org", "@spammer:example.org"));
    assert_eq!(
        event,
        TimelineEvent {
            event_type: Some("m.room.message".to_owned()),
            decoded: decoded("$1:example.org", "@spammer:example.org", EventKind::RoomMessage),
        }
    );
}

#[test]
fn raw_edit_decodes_as_edit() {
    let json = r#"{"type":"m.room.message","event_id":"$2:example.org","sender":"@alice:example.org","origin_server_ts":1,"content":{"msgtype":"m.text","body":"* fixed","m.new_content":{"msgtype":"m.text","body":"fixed"},"m.relates_to":{"rel_type":"m.replace","event_id":"$1:example.org"}}}"#;
    let event = TimelineEvent::from_json(json);
    assert_eq!(event.event_type, Some("m.room.message".to_owned()));
    assert_eq!(event.decoded, decoded("$2:example.org", "@alice:example.org", EventKind::Edit));
}

#[test]
fn raw_redacted_message_decodes_as_redacted() {
    let json = r#"{"type":"m.room.message","event_id":"$3:example.org","sender":"@alice:example.org","origin_server_ts":1,"content":{},"unsigned":{"redacted_because":{"type":"m.room.redaction","event_id":"$4:example.org","sender":"@mod:example.org","origin_server_ts":2,"redacts":"$3:example.org","content":{"reason":"spam"}}}}"#;
    let event = TimelineEvent::from_json(json);
    assert_eq!(event.event_type, Some("m.room.message".to_owned()));
    assert_eq!(event.decoded, decoded("$3:example.org", "@alice:example.org", EventKind::Redacted));
}

#[test]
fn raw_reaction_decodes_as_other_message_like() {
    let json = r#"{"type":"m.reaction","event_id":"$5:example.org","sender":"@alice:example.org","origin_server_ts":1,"content":{"m.relates_to":{"rel_type":"m.annotation","event_id":"$1:example.org","key":"+1"}}}"#;
    let event = TimelineEvent::from_json(json);
    assert_eq!(event.event_type, Some("m.reaction".to_owned()));
    assert_eq!(
        event.decoded,
        decoded("$5:example.org", "@alice:example.org", EventKind::OtherMessageLike)
    );
}

#[test]
fn raw_state_event_decodes_as_state() {
    let json = r#"{"type":"m.room.topic","state_key":"","event_id":"$6:example.org","sender":"@alice:example.org","origin_server_ts":1,"content":{"topic":"hello"}}"#;
    let event = TimelineEvent::from_json(json);
    assert_eq!(event.event_type, Some("m.room.topic".to_owned()));
    assert_eq!(event.decoded, decoded("$6:example.org", "@alice:example.org", EventKind::State));
}

#[test]
fn raw_message_without_its_fields_does_not_decode() {
    let event = TimelineEvent::from_json(r#"{"type":"m.room.message","content":{}}"#);
    assert_eq!(
        event,
        TimelineEvent { event_type: Some("m.room.message".to_owned()), decoded: None }
    );
}

#[test]
fn raw_event_with_other_type_tag_has_none() {
    assert_eq!(
        TimelineEvent::from_json(r#"{"type":5}"#),
        TimelineEvent { event_type: None, decoded: None }
    );
    assert_eq!(
        TimelineEvent::from_json(r#"{"type":null}"#),
        TimelineEvent { event_type: None, decoded: None }
    );
    assert_eq!(
        TimelineEvent::from_json(r#"{"content":{}}"#),
        TimelineEvent { event_type: None, decoded: None }
    );
}

#[test]
fn text_that_is_no_json_is_no_event() {
    for json in ["", "not json", "[1,2]", "\"m.room.message\"", "{"] {
        assert_eq!(
            TimelineEvent::from_json(json),
            TimelineEvent { event_type: None, decoded: None }
        );
    }
}

#[test]
fn raw_page_is_swept_for_the_author_only() {
    let page: Vec<TimelineEvent> = [
        text_message("$1:example.org", "@spammer:example.org"),
        text_message("$2:example.org", "@alice:example.org"),
        text_message("$3:example.org", "@spammer:example.org"),
        text_message("$4:example.org", "@bob:example.org"),
        text_message("$5:example.org", "@spammer:example.org"),
    ]
    .iter()
    .map(|json| TimelineEvent::from_json(json))
    .collect();
    let user = UserId::parse("@spammer:example.org".to_owned()).unwrap();
    assert_eq!(
        plan_sweep(&page, &user),
        Sweep {
            targets: vec![
                EventId::parse("$1:example.org".to_owned()).unwrap(),
                EventId::parse("$3:example.org".to_owned()).unwrap(),
                EventId::parse("$5:example.org".to_owned()).unwrap(),
            ],
            complete: true
        }
    );
}

#[test]
fn raw_message_can_be_replied_to() {
    let fetched = TimelineEvent::from_json(&text_message("$q:example.org", "@asker:example.org"));
    assert_eq!(
        reply_target(Some(fetched)),
        Some(ReplyTarget {
            event_id: EventId::parse("$q:example.org".to_owned()).unwrap(),
            sender: UserId::parse("@asker:example.org".to_owned()).unwrap(),
        })
    );
}
