//! Identifiers of rooms, room aliases, events and users.
//!
//! An identifier is a text that passed the syntax check of the `ruma` crate,
//! built with its features `compat-arbitrary-length-ids` and
//! `compat-user-id`. For a room id that check is one line and is stated
//! here. The checks of the other kinds go through the grammar of server
//! names and are not restated: each is named by a predicate on the text.
//! The constructors below are the only way to a value.

use vstd::prelude::*;

verus! {

/// Whether `ruma` accepts `text` as a room alias.
pub uninterp spec fn room_alias_syntax(text: Seq<char>) -> bool;

/// Whether `ruma` accepts `text` as an event id.
pub uninterp spec fn event_id_syntax(text: Seq<char>) -> bool;

/// Whether `ruma` accepts `text` as a user id.
pub uninterp spec fn user_id_syntax(text: Seq<char>) -> bool;

/// A room id: a text that begins with `!`.
pub open spec fn is_room_id(text: Seq<char>) -> bool {
    text.len() > 0 && text[0] == '!'
}

/// A room alias: a text that begins with `#` and that `ruma` accepts as one.
pub open spec fn is_room_alias(text: Seq<char>) -> bool {
    room_alias_syntax(text) && text.len() > 0 && text[0] == '#'
}

/// An event id: a text that `ruma` accepts as one.
pub open spec fn is_event_id(text: Seq<char>) -> bool {
    event_id_syntax(text)
}

/// A user id: a text that `ruma` accepts as one.
pub open spec fn is_user_id(text: Seq<char>) -> bool {
    user_id_syntax(text)
}

/// Calls `ruma::RoomId::parse` and reports whether it accepted the text.
/// Trusted: with ids of any length allowed, the validation of a room id
/// checks that the first byte is the sigil `!` and nothing else, so a text
/// is accepted exactly if it begins with `!`.
#[verifier::external_body]
fn check_room_id(text: &str) -> (ok: bool)
    ensures
        ok == is_room_id(text@),
{
    ruma::RoomId::parse(text).is_ok()
}

/// Calls `ruma::RoomAliasId::parse` and reports whether it accepted the text.
/// Trusted: the answer is `room_alias_syntax` of the text, and an accepted
/// text begins with the sigil `#`, which is the first thing the validation
/// checks.
#[verifier::external_body]
fn check_room_alias(text: &str) -> (ok: bool)
    ensures
        ok == room_alias_syntax(text@),
        ok ==> text@.len() > 0 && text@[0] == '#',
{
    ruma::RoomAliasId::parse(text).is_ok()
}

/// Calls `ruma::EventId::parse` and reports whether it accepted the text.
/// Trusted: the answer is `event_id_syntax` of the text.
#[verifier::external_body]
fn check_event_id(text: &str) -> (ok: bool)
    ensures
        ok == event_id_syntax(text@),
{
    ruma::EventId::parse(text).is_ok()
}

/// Calls `ruma::UserId::parse` and reports whether it accepted the text.
/// Trusted: the answer is `user_id_syntax` of the text.
#[verifier::external_body]
fn check_user_id(text: &str) -> (ok: bool)
    ensures
        ok == user_id_syntax(text@),
{
    ruma::UserId::parse(text).is_ok()
}

/// The canonical identifier of a room.
#[derive(Debug, PartialEq, Eq)]
pub struct RoomId {
    text: String,
}

impl View for RoomId {
    type V = Seq<char>;

    closed spec fn view(&self) -> Seq<char> {
        self.text@
    }
}

impl Clone for RoomId {
    fn clone(&self) -> (copy: RoomId)
        ensures
            copy@ == self@,
    {
        proof {
            use_type_invariant(self);
        }
        RoomId { text: self.text.clone() }
    }
}

impl RoomId {
    #[verifier::type_invariant]
    spec fn well_formed(self) -> bool {
        is_room_id(self.text@)
    }

    /// Accepts `text` if it is a room id.
    pub fn parse(text: String) -> (id: Option<RoomId>)
        ensures
            id is Some <==> is_room_id(text@),
            id matches Some(v) ==> v@ == text@,
    {
        if check_room_id(text.as_str()) {
            Some(RoomId { text })
        } else {
            None
        }
    }

    /// The text of the identifier.
    pub fn as_str(&self) -> (text: &str)
        ensures
            text@ == self@,
            is_room_id(self@),
    {
        proof {
            use_type_invariant(self);
        }
        self.text.as_str()
    }

    /// Whether `self` and `other` are the same identifier: their texts are
    /// equal, character for character.
    pub fn same_as(&self, other: &RoomId) -> (same: bool)
        ensures
            same == (self@ == other@),
    {
        self.text == other.text
    }
}

/// The human-readable alias of a room.
#[derive(Debug, PartialEq, Eq)]
pub struct RoomAlias {
    text: String,
}

impl View for RoomAlias {
    type V = Seq<char>;

    closed spec fn view(&self) -> Seq<char> {
        self.text@
    }
}

impl Clone for RoomAlias {
    fn clone(&self) -> (copy: RoomAlias)
        ensures
            copy@ == self@,
    {
        proof {
            use_type_invariant(self);
        }
        RoomAlias { text: self.text.clone() }
    }
}

impl RoomAlias {
    #[verifier::type_invariant]
    spec fn well_formed(self) -> bool {
        is_room_alias(self.text@)
    }

    /// Accepts `text` if it is a room alias.
    pub fn parse(text: String) -> (id: Option<RoomAlias>)
        ensures
            id is Some <==> is_room_alias(text@),
            id matches Some(v) ==> v@ == text@,
    {
        if check_room_alias(text.as_str()) {
            Some(RoomAlias { text })
        } else {
            None
        }
    }

    /// The text of the identifier.
    pub fn as_str(&self) -> (text: &str)
        ensures
            text@ == self@,
            is_room_alias(self@),
    {
        proof {
            use_type_invariant(self);
        }
        self.text.as_str()
    }

    /// Whether `self` and `other` are the same identifier: their texts are
    /// equal, character for character.
    pub fn same_as(&self, other: &RoomAlias) -> (same: bool)
        ensures
            same == (self@ == other@),
    {
        self.text == other.text
    }
}

/// The identifier of an event.
#[derive(Debug, PartialEq, Eq)]
pub struct EventId {
    text: String,
}

impl View for EventId {
    type V = Seq<char>;

    closed spec fn view(&self) -> Seq<char> {
        self.text@
    }
}

impl Clone for EventId {
    fn clone(&self) -> (copy: EventId)
        ensures
            copy@ == self@,
    {
        proof {
            use_type_invariant(self);
        }
        EventId { text: self.text.clone() }
    }
}

impl EventId {
    #[verifier::type_invariant]
    spec fn well_formed(self) -> bool {
        is_event_id(self.text@)
    }

    /// Accepts `text` if it is an event id.
    pub fn parse(text: String) -> (id: Option<EventId>)
        ensures
            id is Some <==> is_event_id(text@),
            id matches Some(v) ==> v@ == text@,
    {
        if check_event_id(text.as_str()) {
            Some(EventId { text })
        } else {
            None
        }
    }

    /// The text of the identifier.
    pub fn as_str(&self) -> (text: &str)
        ensures
            text@ == self@,
            is_event_id(self@),
    {
        proof {
            use_type_invariant(self);
        }
        self.text.as_str()
    }

    /// Whether `self` and `other` are the same identifier: their texts are
    /// equal, character for character.
    pub fn same_as(&self, other: &EventId) -> (same: bool)
        ensures
            same == (self@ == other@),
    {
        self.text == other.text
    }
}

/// The identifier of a user.
#[derive(Debug, PartialEq, Eq)]
pub struct UserId {
    text: String,
}

impl View for UserId {
    type V = Seq<char>;

    closed spec fn view(&self) -> Seq<char> {
        self.text@
    }
}

impl Clone for UserId {
    fn clone(&self) -> (copy: UserId)
        ensures
            copy@ == self@,
    {
        proof {
            use_type_invariant(self);
        }
        UserId { text: self.text.clone() }
    }
}

impl UserId {
    #[verifier::type_invariant]
    spec fn well_formed(self) -> bool {
        is_user_id(self.text@)
    }

    /// Accepts `text` if it is a user id.
    pub fn parse(text: String) -> (id: Option<UserId>)
        ensures
            id is Some <==> is_user_id(text@),
            id matches Some(v) ==> v@ == text@,
    {
        if check_user_id(text.as_str()) {
            Some(UserId { text })
        } else {
            None
        }
    }

    /// The text of the identifier.
    pub fn as_str(&self) -> (text: &str)
        ensures
            text@ == self@,
            is_user_id(self@),
    {
        proof {
            use_type_invariant(self);
        }
        self.text.as_str()
    }

    /// Whether `self` and `other` are the same identifier: their texts are
    /// equal, character for character.
    pub fn same_as(&self, other: &UserId) -> (same: bool)
        ensures
            same == (self@ == other@),
    {
        self.text == other.text
    }
}

/// How a command names a room: by its id, or by an alias that has yet to be
/// looked up.
#[derive(Debug, PartialEq, Eq)]
pub enum RoomReference {
    RoomId(RoomId),
    RoomAlias(RoomAlias),
}

/// What a `RoomReference` holds.
pub enum RoomReferenceView {
    RoomId(Seq<char>),
    RoomAlias(Seq<char>),
}

impl RoomReferenceView {
    /// The text of the reference, whichever kind it is.
    pub open spec fn text(self) -> Seq<char> {
        match self {
            RoomReferenceView::RoomId(t) => t,
            RoomReferenceView::RoomAlias(t) => t,
        }
    }

    /// Whether the text is an identifier of the kind that the reference says.
    pub open spec fn wf(self) -> bool {
        match self {
            RoomReferenceView::RoomId(t) => is_room_id(t),
            RoomReferenceView::RoomAlias(t) => is_room_alias(t),
        }
    }
}

/// The reference that `text` stands for: a room id, a room alias, or neither.
pub open spec fn room_reference_of(text: Seq<char>) -> Option<RoomReferenceView> {
    if is_room_id(text) {
        Some(RoomReferenceView::RoomId(text))
    } else if is_room_alias(text) {
        Some(RoomReferenceView::RoomAlias(text))
    } else {
        None
    }
}

impl View for RoomReference {
    type V = RoomReferenceView;

    open spec fn view(&self) -> RoomReferenceView {
        match self {
            RoomReference::RoomId(id) => RoomReferenceView::RoomId(id@),
            RoomReference::RoomAlias(alias) => RoomReferenceView::RoomAlias(alias@),
        }
    }
}

impl Clone for RoomReference {
    fn clone(&self) -> (copy: RoomReference)
        ensures
            copy@ == self@,
    {
        match self {
            RoomReference::RoomId(id) => RoomReference::RoomId(id.clone()),
            RoomReference::RoomAlias(alias) => RoomReference::RoomAlias(alias.clone()),
        }
    }
}

impl RoomReference {
    /// Reads `text` as a room id or as a room alias.
    pub fn parse(text: String) -> (reference: Option<RoomReference>)
        ensures
            reference is Some <==> room_reference_of(text@) is Some,
            reference matches Some(r) ==> Some(r@) == room_reference_of(text@),
    {
        if check_room_id(text.as_str()) {
            Some(RoomReference::RoomId(RoomId { text }))
        } else if check_room_alias(text.as_str()) {
            Some(RoomReference::RoomAlias(RoomAlias { text }))
        } else {
            None
        }
    }

    /// The text of the reference.
    pub fn as_str(&self) -> (text: &str)
        ensures
            text@ == self@.text(),
            self@.wf(),
    {
        match self {
            RoomReference::RoomId(id) => id.as_str(),
            RoomReference::RoomAlias(alias) => alias.as_str(),
        }
    }
}

/// Reading the text of a reference gives that reference again: a room id is
/// no alias and an alias is no room id, since the two begin with different
/// sigils.
pub proof fn lemma_room_reference_roundtrip(reference: RoomReferenceView)
    requires
        reference.wf(),
    ensures
        room_reference_of(reference.text()) == Some(reference),
{
}

} // verus!
