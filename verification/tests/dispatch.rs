use matrixbot::command::{Command, DecodeError};
use matrixbot::dispatch::{
    advance, begin, start, CommandError, Outcome, Pending, Reply, Request, Step, Task,
};
use matrixbot::event::{DecodedEvent, EventKind, TimelineEvent};
use matrixbot::frame::decode;
use matrixbot::ident::{EventId, RoomAlias, RoomId, RoomReference, UserId};
use matrixbot::message::{MessageBody, Relation, ReplyTarget};

fn room_id(text: &str) -> RoomId {
    RoomId::parse(text.to_owned()).unwrap()
}

fn event_id(text: &str) -> EventId {
    EventId::parse(text.to_owned()).unwrap()
}

fn user_id(text: &str) -> UserId {
    UserId::parse(text.to_owned()).unwrap()
}

fn history_message(id: &str, sender: &str) -> TimelineEvent {
    TimelineEvent {
        event_type: Some("m.room.message".to_owned()),
        decoded: Some(DecodedEvent {
            event_id: event_id(id),
            sender: user_id(sender),
            kind: EventKind::RoomMessage,
        }),
    }
}

fn perform(step: Step) -> (Request, Pending) {
    match step {
        Step::Perform { request, pending } => (request, pending),
        Step::Finished { outcome } => panic!("finished early: {:?}", outcome),
    }
}

fn finished(step: Step) -> Outcome {
    match step {
        Step::Finished { outcome } => outcome,
        Step::Perform { request, .. } => panic!("not finished: {:?}", request),
    }
}

fn plain(text: &str) -> MessageBody {
    MessageBody { text: text.to_owned(), html: None, relation: Relation::Standalone }
}

fn redaction(id: &str) -> Request {
    Request::RedactEvent { event_id: event_id(id), reason: "spam".to_owned() }
}

#[test]
fn plain_send_to_a_room_id_sends_and_writes_nothing() {
    let payload = br#"{"cmd":"send_message","target":"!abc:example.org","content":"hi"}"#;
    let (request, pending) = perform(begin(payload));
    assert_eq!(request, Request::GetRoom { room_id: room_id("!abc:example.org") });
    let (request, pending) = perform(advance(pending, Reply::Room(true)));
    assert_eq!(request, Request::SendMessage { body: plain("hi") });
    assert_eq!(pending, Pending::Sending { return_id: false });
    let outcome = finished(advance(pending, Reply::Sent(Some(event_id("$new:example.org")))));
    assert_eq!(outcome, Outcome::Done);
}

#[test]
fn send_that_asks_for_the_id_gets_a_framed_response() {
    let payload =
        br#"{"cmd":"send_message","target":"!abc:example.org","content":"hi","return_id":true}"#;
    let (_, pending) = perform(begin(payload));
    let (_, pending) = perform(advance(pending, Reply::Room(true)));
    let outcome = finished(advance(pending, Reply::Sent(Some(event_id("$new:example.org")))));
    let mut expected = vec![0, 0, 0, 25];
    expected.extend_from_slice(br#"{"id":"$new:example.org"}"#);
    assert_eq!(outcome, Outcome::Respond { frame: expected.clone() });
    assert_eq!(decode(&expected).unwrap().payload, br#"{"id":"$new:example.org"}"#.to_vec());
}

#[test]
fn send_without_return_id_never_responds_even_on_success() {
    for payload in [
        &br#"{"cmd":"send_message","target":"!abc:example.org","content":"hi","return_id":false}"#[..],
        &br#"{"cmd":"send_message","target":"!abc:example.org","content":"hi"}"#[..],
    ] {
        let (_, pending) = perform(begin(payload));
        let (_, pending) = perform(advance(pending, Reply::Room(true)));
        assert_eq!(
            advance(pending, Reply::Sent(Some(event_id("$new:example.org")))),
            Step::Finished { outcome: Outcome::Done }
        );
    }
}

#[test]
fn failed_send_is_an_error_without_response() {
    let payload =
        br#"{"cmd":"send_message","target":"!abc:example.org","content":"hi","return_id":true}"#;
    let (_, pending) = perform(begin(payload));
    let (_, pending) = perform(advance(pending, Reply::Room(true)));
    assert_eq!(
        finished(advance(pending, Reply::Sent(None))),
        Outcome::Failed { error: CommandError::RemoteAction }
    );
}

#[test]
fn room_id_is_never_looked_up_however_often_it_is_resolved() {
    for _ in 0..2 {
        let command = Command::DeleteUserMessages {
            target: RoomReference::RoomId(room_id("!abc:example.org")),
            user: user_id("@spammer:example.org"),
        };
        let (request, pending) = perform(start(command));
        assert_eq!(request, Request::GetRoom { room_id: room_id("!abc:example.org") });
        assert_eq!(
            pending,
            Pending::Locating { task: Task::Purge { user: user_id("@spammer:example.org") } }
        );
    }
}

#[test]
fn alias_is_looked_up_once_and_then_the_room_is_located() {
    let payload = br##"{"cmd":"send_message","target":"#lounge:example.org","content":"hi"}"##;
    let (request, pending) = perform(begin(payload));
    assert_eq!(
        request,
        Request::ResolveAlias { alias: RoomAlias::parse("#lounge:example.org".to_owned()).unwrap() }
    );
    let (request, pending) =
        perform(advance(pending, Reply::AliasResolved(Some(room_id("!real:example.org")))));
    assert_eq!(request, Request::GetRoom { room_id: room_id("!real:example.org") });
    let (request, _) = perform(advance(pending, Reply::Room(true)));
    assert_eq!(request, Request::SendMessage { body: plain("hi") });
}

#[test]
fn unknown_alias_drops_the_command() {
    let payload = br##"{"cmd":"send_message","target":"#nowhere:example.org","content":"hi","return_id":true}"##;
    let (_, pending) = perform(begin(payload));
    assert_eq!(
        finished(advance(pending, Reply::AliasResolved(None))),
        Outcome::Failed { error: CommandError::Resolution }
    );
}

#[test]
fn unknown_room_drops_the_command() {
    let payload =
        br#"{"cmd":"send_message","target":"!abc:example.org","content":"hi","return_id":true}"#;
    let (_, pending) = perform(begin(payload));
    assert_eq!(
        finished(advance(pending, Reply::Room(false))),
        Outcome::Failed { error: CommandError::RoomNotFound }
    );
    let payload =
        br#"{"cmd":"delete_user_messages","target":"!abc:example.org","user":"@spammer:example.org"}"#;
    let (_, pending) = perform(begin(payload));
    assert_eq!(
        finished(advance(pending, Reply::Room(false))),
        Outcome::Failed { error: CommandError::RoomNotFound }
    );
}

#[test]
fn malformed_payloads_are_dropped_without_response() {
    let cases: [(&[u8], DecodeError); 6] = [
        (&[0xff, 0xfe], DecodeError::InvalidUtf8),
        (b"{not json", DecodeError::InvalidJson),
        (b"[1,2]", DecodeError::InvalidJson),
        (br#"{"target":"!abc:example.org"}"#, DecodeError::MissingCommand),
        (br#"{"cmd":"reboot"}"#, DecodeError::UnknownCommand),
        (
            br#"{"cmd":"send_message","target":"!abc:example.org","content":"hi","x":1}"#,
            DecodeError::UnknownField,
        ),
    ];
    for (payload, error) in cases {
        assert_eq!(
            begin(payload),
            Step::Finished { outcome: Outcome::Failed { error: CommandError::Decode(error) } }
        );
    }
}

#[test]
fn reply_and_edit_together_make_an_edit_with_fallback() {
    let payload = br#"{"cmd":"send_message","target":"!abc:example.org","content":"fixed","reply_to":"$q:example.org","replaces":"$old:example.org"}"#;
    let (_, pending) = perform(begin(payload));
    let (request, pending) = perform(advance(pending, Reply::Room(true)));
    assert_eq!(request, Request::FetchEvent { event_id: event_id("$q:example.org") });
    let fetched = history_message("$q:example.org", "@asker:example.org");
    let (request, pending) = perform(advance(pending, Reply::Event(Some(fetched))));
    assert_eq!(
        request,
        Request::SendMessage {
            body: MessageBody {
                text: "fixed".to_owned(),
                html: None,
                relation: Relation::Replacement {
                    of: event_id("$old:example.org"),
                    reply_fallback: Some(ReplyTarget {
                        event_id: event_id("$q:example.org"),
                        sender: user_id("@asker:example.org"),
                    }),
                },
            }
        }
    );
    assert_eq!(pending, Pending::Sending { return_id: false });
}

#[test]
fn reply_alone_makes_a_threaded_reply() {
    let payload = br#"{"cmd":"send_message","target":"!abc:example.org","content":"yes","html_content":"<b>yes</b>","reply_to":"$q:example.org"}"#;
    let (_, pending) = perform(begin(payload));
    let (_, pending) = perform(advance(pending, Reply::Room(true)));
    let fetched = history_message("$q:example.org", "@asker:example.org");
    let (request, _) = perform(advance(pending, Reply::Event(Some(fetched))));
    assert_eq!(
        request,
        Request::SendMessage {
            body: MessageBody {
                text: "yes".to_owned(),
                html: Some("<b>yes</b>".to_owned()),
                relation: Relation::Reply {
                    to: ReplyTarget {
                        event_id: event_id("$q:example.org"),
                        sender: user_id("@asker:example.org"),
                    },
                    forward_thread: true,
                    add_mentions: true,
                },
            }
        }
    );
}

#[test]
fn reply_target_that_cannot_be_had_is_passed_over() {
    let payload = br#"{"cmd":"send_message","target":"!abc:example.org","content":"yes","reply_to":"$q:example.org","return_id":true}"#;
    let unusable = [
        None,
        Some(TimelineEvent { event_type: Some("m.room.message".to_owned()), decoded: None }),
        Some(TimelineEvent {
            event_type: Some("m.room.message".to_owned()),
            decoded: Some(DecodedEvent {
                event_id: event_id("$q:example.org"),
                sender: user_id("@asker:example.org"),
                kind: EventKind::Edit,
            }),
        }),
        Some(TimelineEvent {
            event_type: Some("m.room.member".to_owned()),
            decoded: Some(DecodedEvent {
                event_id: event_id("$q:example.org"),
                sender: user_id("@asker:example.org"),
                kind: EventKind::State,
            }),
        }),
    ];
    for fetched in unusable {
        let (_, pending) = perform(begin(payload));
        let (_, pending) = perform(advance(pending, Reply::Room(true)));
        let (request, pending) = perform(advance(pending, Reply::Event(fetched)));
        assert_eq!(request, Request::SendMessage { body: plain("yes") });
        assert_eq!(pending, Pending::Sending { return_id: true });
    }
}

#[test]
fn purge_asks_for_one_backward_page_of_ten() {
    let payload =
        br#"{"cmd":"delete_user_messages","target":"!abc:example.org","user":"@spammer:example.org"}"#;
    let (_, pending) = perform(begin(payload));
    let (request, pending) = perform(advance(pending, Reply::Room(true)));
    assert_eq!(
        request,
        Request::FetchHistoryPage { sender: user_id("@spammer:example.org"), limit: 10 }
    );
    assert_eq!(pending, Pending::Searching { user: user_id("@spammer:example.org") });
}

#[test]
fn purge_retracts_the_three_of_the_author_and_nothing_else() {
    let page = vec![
        history_message("$1:example.org", "@spammer:example.org"),
        history_message("$2:example.org", "@alice:example.org"),
        history_message("$3:example.org", "@spammer:example.org"),
        history_message("$4:example.org", "@bob:example.org"),
        history_message("$5:example.org", "@spammer:example.org"),
    ];
    let pending = Pending::Searching { user: user_id("@spammer:example.org") };
    let (request, pending) = perform(advance(pending, Reply::HistoryPage(Some(page))));
    assert_eq!(request, redaction("$1:example.org"));
    let (request, pending) = perform(advance(pending, Reply::Redacted(true)));
    assert_eq!(request, redaction("$3:example.org"));
    let (request, pending) = perform(advance(pending, Reply::Redacted(true)));
    assert_eq!(request, redaction("$5:example.org"));
    assert_eq!(finished(advance(pending, Reply::Redacted(true))), Outcome::Done);
}

#[test]
fn failed_second_retraction_stops_the_sweep() {
    let page = vec![
        history_message("$1:example.org", "@spammer:example.org"),
        history_message("$2:example.org", "@spammer:example.org"),
        history_message("$3:example.org", "@spammer:example.org"),
    ];
    let pending = Pending::Searching { user: user_id("@spammer:example.org") };
    let (request, pending) = perform(advance(pending, Reply::HistoryPage(Some(page))));
    assert_eq!(request, redaction("$1:example.org"));
    let (request, pending) = perform(advance(pending, Reply::Redacted(true)));
    assert_eq!(request, redaction("$2:example.org"));
    assert_eq!(
        pending,
        Pending::Redacting { remaining: vec![event_id("$3:example.org")], complete: true }
    );
    assert_eq!(
        advance(pending, Reply::Redacted(false)),
        Step::Finished { outcome: Outcome::Failed { error: CommandError::RemoteAction } }
    );
}

#[test]
fn purge_with_nothing_to_retract_is_done_at_once() {
    let page = vec![history_message("$2:example.org", "@alice:example.org")];
    let pending = Pending::Searching { user: user_id("@spammer:example.org") };
    assert_eq!(finished(advance(pending, Reply::HistoryPage(Some(page)))), Outcome::Done);
    let pending = Pending::Searching { user: user_id("@spammer:example.org") };
    assert_eq!(finished(advance(pending, Reply::HistoryPage(Some(vec![])))), Outcome::Done);
}

#[test]
fn purge_whose_page_cannot_be_fetched_fails() {
    let pending = Pending::Searching { user: user_id("@spammer:example.org") };
    assert_eq!(
        finished(advance(pending, Reply::HistoryPage(None))),
        Outcome::Failed { error: CommandError::RemoteAction }
    );
}

#[test]
fn purge_ends_in_an_error_after_an_event_that_does_not_decode() {
    let page = vec![
        history_message("$1:example.org", "@spammer:example.org"),
        TimelineEvent { event_type: Some("m.room.message".to_owned()), decoded: None },
        history_message("$3:example.org", "@spammer:example.org"),
    ];
    let pending = Pending::Searching { user: user_id("@spammer:example.org") };
    let (request, pending) = perform(advance(pending, Reply::HistoryPage(Some(page))));
    assert_eq!(request, redaction("$1:example.org"));
    assert_eq!(
        finished(advance(pending, Reply::Redacted(true))),
        Outcome::Failed { error: CommandError::MalformedEvent }
    );
}

#[test]
fn reply_that_answers_another_request_gives_the_command_up() {
    let unexpected = Outcome::Failed { error: CommandError::UnexpectedReply };
    let task = || Task::Purge { user: user_id("@spammer:example.org") };
    assert_eq!(finished(advance(Pending::Resolving { task: task() }, Reply::Room(true))), unexpected);
    assert_eq!(
        finished(advance(Pending::Locating { task: task() }, Reply::AliasResolved(None))),
        unexpected
    );
    assert_eq!(
        finished(advance(Pending::Sending { return_id: true }, Reply::Redacted(true))),
        unexpected
    );
    assert_eq!(
        finished(advance(
            Pending::Searching { user: user_id("@spammer:example.org") },
            Reply::Sent(None)
        )),
        unexpected
    );
    assert_eq!(
        finished(advance(
            Pending::Redacting { remaining: vec![], complete: true },
            Reply::Event(None)
        )),
        unexpected
    );
    assert_eq!(
        finished(advance(
            Pending::FetchingReply {
                content: "x".to_owned(),
                html_content: None,
                replaces: None,
                return_id: false
            },
            Reply::HistoryPage(None)
        )),
        unexpected
    );
}
