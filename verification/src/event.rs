//! Events of a room's history, as far as the control plane reads them.
//!
//! An event arrives as JSON text. Reading it is left to the `ruma` crate:
//! what its type tag is, and whether it decodes as an event of the timeline
//! and to what. What `ruma` finds is named, not restated; everything that is
//! decided about an event is decided on the `TimelineEvent` made of it.

use ruma::events::room::message::Relation;
use ruma::events::{AnySyncMessageLikeEvent, AnySyncTimelineEvent, SyncMessageLikeEvent};
use ruma::serde::Raw;
use vstd::prelude::*;

use crate::ident::{is_event_id, is_user_id, EventId, UserId};
use crate::json::text_option_view;

verus! {

/// What kind of event a decoded event is.
#[derive(Clone, Copy, Debug, PartialEq, Eq, Structural)]
pub enum EventKind {
    /// A room message as it was first sent: not redacted, and not an edit of
    /// an earlier message.
    RoomMessage,
    /// A room message that replaces an earlier one.
    Edit,
    /// A message-like event whose content was redacted.
    Redacted,
    /// Any other message-like event, as it was first sent.
    OtherMessageLike,
    /// A state event.
    State,
}

impl EventKind {
    /// An original event: message-like, neither redacted nor an edit.
    pub open spec fn is_original(self) -> bool {
        self == EventKind::RoomMessage || self == EventKind::OtherMessageLike
    }

    /// Whether the event is message-like, neither redacted nor an edit.
    pub fn original(&self) -> (original: bool)
        ensures
            original == self.is_original(),
    {
        match self {
            EventKind::RoomMessage => true,
            EventKind::OtherMessageLike => true,
            _ => false,
        }
    }
}

/// An event that decoded: who sent it, under which id, and of what kind it is.
#[derive(Debug, PartialEq, Eq)]
pub struct DecodedEvent {
    pub event_id: EventId,
    pub sender: UserId,
    pub kind: EventKind,
}

/// What a `DecodedEvent` holds.
pub struct DecodedEventView {
    pub event_id: Seq<char>,
    pub sender: Seq<char>,
    pub kind: EventKind,
}

impl View for DecodedEvent {
    type V = DecodedEventView;

    open spec fn view(&self) -> DecodedEventView {
        DecodedEventView { event_id: self.event_id@, sender: self.sender@, kind: self.kind }
    }
}

/// One raw event of a room's history: the type tag that it carries, where it
/// carries a text as such, and what it decoded to, where it decoded.
#[derive(Debug, PartialEq, Eq)]
pub struct TimelineEvent {
    pub event_type: Option<String>,
    pub decoded: Option<DecodedEvent>,
}

/// What a `TimelineEvent` holds.
pub struct TimelineEventView {
    pub event_type: Option<Seq<char>>,
    pub decoded: Option<DecodedEventView>,
}

impl View for TimelineEvent {
    type V = TimelineEventView;

    open spec fn view(&self) -> TimelineEventView {
        TimelineEventView {
            event_type: match self.event_type {
                Some(t) => Some(t@),
                None => None,
            },
            decoded: match self.decoded {
                Some(d) => Some(d@),
                None => None,
            },
        }
    }
}

/// An event that may have been fetched, by its view.
pub open spec fn fetched_view(event: Option<TimelineEvent>) -> Option<TimelineEventView> {
    match event {
        Some(e) => Some(e@),
        None => None,
    }
}

/// The events of a page, each by its view.
pub open spec fn page_view(page: Seq<TimelineEvent>) -> Seq<TimelineEventView> {
    page.map_values(|e: TimelineEvent| e@)
}

/// The text that the raw event `json` holds in its field `name`, as
/// `ruma` reads it; none where `json` is no JSON object, or the field is
/// absent, null or no text that can be had as it stands.
pub uninterp spec fn raw_text_field_of(json: Seq<char>, name: Seq<char>) -> Option<Seq<char>>;

/// What the raw event `json` decodes to, as `ruma` reads it: the id of the
/// event, its sender and its kind; none where it does not decode as an
/// event of the timeline.
pub uninterp spec fn decoded_event_of(json: Seq<char>) -> Option<(Seq<char>, Seq<char>, EventKind)>;

/// What was decoded from a raw event, its texts by their views.
pub open spec fn decoded_view(decoded: Option<(String, String, EventKind)>) -> Option<
    (Seq<char>, Seq<char>, EventKind),
> {
    match decoded {
        Some((event_id, sender, kind)) => Some((event_id@, sender@, kind)),
        None => None,
    }
}

/// Calls `ruma::serde::Raw::get_field` for a borrowed text, on the raw event
/// made of `json` by `Raw::from_json_string`. Trusted: the result is
/// `raw_text_field_of` of the two texts, nothing more.
#[verifier::external_body]
fn raw_text_field(json: &str, name: &str) -> (text: Option<String>)
    ensures
        text_option_view(text) == raw_text_field_of(json@, name@),
{
    let raw = Raw::<AnySyncTimelineEvent>::from_json_string(json.to_owned()).ok()?;
    raw.get_field::<&str>(name).ok().flatten().map(|text| text.to_owned())
}

/// Calls `ruma::serde::Raw::deserialize` for an `AnySyncTimelineEvent`, on
/// the raw event made of `json` by `Raw::from_json_string`, and tells the
/// variants of the result apart. Trusted: the result is `decoded_event_of`
/// of the text, nothing more.
#[verifier::external_body]
fn decode_event(json: &str) -> (decoded: Option<(String, String, EventKind)>)
    ensures
        decoded_view(decoded) == decoded_event_of(json@),
{
    let raw = Raw::<AnySyncTimelineEvent>::from_json_string(json.to_owned()).ok()?;
    let event = raw.deserialize().ok()?;
    let kind = match &event {
        AnySyncTimelineEvent::State(_) => EventKind::State,
        AnySyncTimelineEvent::MessageLike(AnySyncMessageLikeEvent::RoomMessage(SyncMessageLikeEvent::Original(message))) => match message.content.relates_to {
            Some(Relation::Replacement(_)) => EventKind::Edit,
            _ => EventKind::RoomMessage,
        },
        AnySyncTimelineEvent::MessageLike(other) => match other.original_content() {
            Some(_) => EventKind::OtherMessageLike,
            None => EventKind::Redacted,
        },
    };
    Some((event.event_id().to_string(), event.sender().to_string(), kind))
}

/// The event that the raw event `json` stands for: its type tag, and what
/// it decodes to.
pub open spec fn timeline_event_of(json: Seq<char>) -> TimelineEventView {
    TimelineEventView {
        event_type: raw_text_field_of(json, "type"@),
        decoded: match decoded_event_of(json) {
            Some((event_id, sender, kind)) => if is_event_id(event_id) && is_user_id(sender) {
                Some(DecodedEventView { event_id, sender, kind })
            } else {
                None
            },
            None => None,
        },
    }
}

impl TimelineEvent {
    /// Reads a raw event.
    pub fn from_json(json: &str) -> (event: TimelineEvent)
        ensures
            event@ == timeline_event_of(json@),
    {
        let event_type = raw_text_field(json, "type");
        let decoded = match decode_event(json) {
            Some((event_id, sender, kind)) => match EventId::parse(event_id) {
                Some(event_id) => match UserId::parse(sender) {
                    Some(sender) => Some(DecodedEvent { event_id, sender, kind }),
                    None => None,
                },
                None => None,
            },
            None => None,
        };
        TimelineEvent { event_type, decoded }
    }
}

} // verus!
