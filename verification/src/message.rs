//! The body of an outgoing message: its text, and how it relates to an
//! earlier event.

use vstd::prelude::*;

use crate::command::{event_id_view, text_view};
use crate::event::{fetched_view, EventKind, TimelineEvent, TimelineEventView};
use crate::ident::{EventId, UserId};

verus! {

/// The message that a reply answers.
#[derive(Debug, PartialEq, Eq)]
pub struct ReplyTarget {
    pub event_id: EventId,
    pub sender: UserId,
}

/// What a `ReplyTarget` holds.
pub struct ReplyTargetView {
    pub event_id: Seq<char>,
    pub sender: Seq<char>,
}

impl View for ReplyTarget {
    type V = ReplyTargetView;

    open spec fn view(&self) -> ReplyTargetView {
        ReplyTargetView { event_id: self.event_id@, sender: self.sender@ }
    }
}

/// A reply target that may be there, by its view.
pub open spec fn reply_view(reply: Option<ReplyTarget>) -> Option<ReplyTargetView> {
    match reply {
        Some(r) => Some(r@),
        None => None,
    }
}

/// How an outgoing message relates to an earlier event.
#[derive(Debug, PartialEq, Eq)]
pub enum Relation {
    /// A message of its own.
    Standalone,
    /// A reply to `to`, carried on into the thread of `to` where
    /// `forward_thread` holds, and mentioning its sender where `add_mentions`
    /// holds.
    Reply { to: ReplyTarget, forward_thread: bool, add_mentions: bool },
    /// An edit that replaces the event `of`. Where the request also named a
    /// message to reply to and that message was found, `reply_fallback` holds
    /// it, for the fallback rendering of the edit.
    Replacement { of: EventId, reply_fallback: Option<ReplyTarget> },
}

/// What a `Relation` holds.
pub enum RelationView {
    Standalone,
    Reply { to: ReplyTargetView, forward_thread: bool, add_mentions: bool },
    Replacement { of: Seq<char>, reply_fallback: Option<ReplyTargetView> },
}

impl View for Relation {
    type V = RelationView;

    open spec fn view(&self) -> RelationView {
        match self {
            Relation::Standalone => RelationView::Standalone,
            Relation::Reply { to, forward_thread, add_mentions } => RelationView::Reply {
                to: to@,
                forward_thread: *forward_thread,
                add_mentions: *add_mentions,
            },
            Relation::Replacement { of, reply_fallback } => RelationView::Replacement {
                of: of@,
                reply_fallback: reply_view(*reply_fallback),
            },
        }
    }
}

/// The body of an outgoing message.
#[derive(Debug, PartialEq, Eq)]
pub struct MessageBody {
    /// The plain text.
    pub text: String,
    /// The rich text, where the request gave one.
    pub html: Option<String>,
    /// How the message relates to an earlier event.
    pub relation: Relation,
}

/// What a `MessageBody` holds.
pub struct MessageBodyView {
    pub text: Seq<char>,
    pub html: Option<Seq<char>>,
    pub relation: RelationView,
}

impl View for MessageBody {
    type V = MessageBodyView;

    open spec fn view(&self) -> MessageBodyView {
        MessageBodyView { text: self.text@, html: text_view(self.html), relation: self.relation@ }
    }
}

/// The message that a fetched event lets a reply point to: the event itself
/// where it was fetched, decoded, and is a room message as first sent; none
/// where the fetch failed, the event did not decode, or it is an edit, a
/// redaction or no room message.
pub open spec fn reply_target_of(fetched: Option<TimelineEventView>) -> Option<ReplyTargetView> {
    match fetched {
        Some(event) => match event.decoded {
            Some(d) => if d.kind == EventKind::RoomMessage {
                Some(ReplyTargetView { event_id: d.event_id, sender: d.sender })
            } else {
                None
            },
            None => None,
        },
        None => None,
    }
}

/// How a message relates to earlier events: an edit wherever the request
/// names an event to replace, with the reply target as its fallback; else a
/// threaded reply with mentions where a reply target was found; else nothing.
pub open spec fn relation_of(
    replaces: Option<Seq<char>>,
    reply: Option<ReplyTargetView>,
) -> RelationView {
    match replaces {
        Some(of) => RelationView::Replacement { of, reply_fallback: reply },
        None => match reply {
            Some(to) => RelationView::Reply { to, forward_thread: true, add_mentions: true },
            None => RelationView::Standalone,
        },
    }
}

/// The body of the message that a request asks for.
pub open spec fn message_of(
    content: Seq<char>,
    html_content: Option<Seq<char>>,
    replaces: Option<Seq<char>>,
    reply: Option<ReplyTargetView>,
) -> MessageBodyView {
    MessageBodyView { text: content, html: html_content, relation: relation_of(replaces, reply) }
}

/// Decides whether a fetched event can be replied to. Whatever stands in
/// the way, the answer is "no target", never a failure.
pub fn reply_target(fetched: Option<TimelineEvent>) -> (target: Option<ReplyTarget>)
    ensures
        reply_view(target) == reply_target_of(fetched_view(fetched)),
{
    match fetched {
        Some(TimelineEvent { event_type: _, decoded: Some(d) }) => match d.kind {
            EventKind::RoomMessage => Some(ReplyTarget { event_id: d.event_id, sender: d.sender }),
            _ => None,
        },
        _ => None,
    }
}

/// Builds the body of an outgoing message: plain text, or plain and rich
/// text where both are given, related to earlier events as `relation_of`
/// says.
pub fn build_message(
    content: String,
    html_content: Option<String>,
    replaces: Option<EventId>,
    reply: Option<ReplyTarget>,
) -> (body: MessageBody)
    ensures
        body@ == message_of(
            content@,
            text_view(html_content),
            event_id_view(replaces),
            reply_view(reply),
        ),
{
    let relation = match replaces {
        Some(of) => Relation::Replacement { of, reply_fallback: reply },
        None => match reply {
            Some(to) => Relation::Reply { to, forward_thread: true, add_mentions: true },
            None => Relation::Standalone,
        },
    };
    MessageBody { text: content, html: html_content, relation }
}

/// A message that both replaces an event and answers one is an edit that
/// carries the answered message as its fallback, never a plain reply.
pub proof fn lemma_edit_wins_over_reply(
    content: Seq<char>,
    html_content: Option<Seq<char>>,
    replaces: Seq<char>,
    reply: ReplyTargetView,
)
    ensures
        message_of(content, html_content, Some(replaces), Some(reply)).relation
            == (RelationView::Replacement { of: replaces, reply_fallback: Some(reply) }),
{
}

} // verus!
