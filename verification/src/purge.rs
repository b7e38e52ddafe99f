//! The sweep that retracts the recent messages of one author.
//!
//! One sweep looks at one page of a room's history, fetched backward and
//! filtered by the server to the author. The server's filter is not taken on
//! trust: an event is retracted only if its type tag is that of a plain
//! message, it decodes, its sender is exactly the author, and it is an
//! original event. An event with the right tag that does not decode ends
//! the sweep; what came before it on the page is still retracted.

use vstd::prelude::*;

use crate::event::{page_view, TimelineEvent, TimelineEventView};
use crate::ident::{EventId, UserId};
use crate::json::text_is;

verus! {

/// How many events one sweep asks for.
pub const PAGE_LIMIT: u64 = 10;

/// The reason that is given for each retraction.
pub open spec fn purge_reason() -> Seq<char> {
    "spam"@
}

/// Whether the event carries the type tag of a plain message.
pub open spec fn is_plain_message(event: TimelineEventView) -> bool {
    event.event_type == Some("m.room.message"@)
}

/// Whether the event stops the sweep: it has the tag of a plain message and
/// does not decode.
pub open spec fn is_undecodable(event: TimelineEventView) -> bool {
    is_plain_message(event) && event.decoded is None
}

/// Whether the sweep for `user` retracts the event.
pub open spec fn is_purge_target(event: TimelineEventView, user: Seq<char>) -> bool {
    &&& is_plain_message(event)
    &&& event.decoded matches Some(d)
    &&& d.sender == user
    &&& d.kind.is_original()
}

/// The id of a decoded event.
pub open spec fn id_of(event: TimelineEventView) -> Seq<char>
    recommends
        event.decoded is Some,
{
    event.decoded->Some_0.event_id
}

/// How many events the sweep reads: those before the first that stops it.
pub open spec fn readable_len(page: Seq<TimelineEventView>) -> nat
    decreases page.len(),
{
    if page.len() == 0 {
        0
    } else if is_undecodable(page[0]) {
        0
    } else {
        1 + readable_len(page.skip(1))
    }
}

/// The ids of the events among `events` that the sweep for `user` retracts,
/// in the order of the page.
pub open spec fn targets_in(events: Seq<TimelineEventView>, user: Seq<char>) -> Seq<Seq<char>>
    decreases events.len(),
{
    if events.len() == 0 {
        Seq::empty()
    } else {
        let before = targets_in(events.drop_last(), user);
        if is_purge_target(events.last(), user) {
            before.push(id_of(events.last()))
        } else {
            before
        }
    }
}

/// What one sweep over `page` retracts for `user`.
pub open spec fn sweep_targets(page: Seq<TimelineEventView>, user: Seq<char>) -> Seq<Seq<char>> {
    targets_in(page.take(readable_len(page) as int), user)
}

/// Whether the sweep reads the page to its end.
pub open spec fn sweep_is_complete(page: Seq<TimelineEventView>) -> bool {
    readable_len(page) == page.len()
}

/// What a sweep is to do.
#[derive(Debug, PartialEq, Eq)]
pub struct Sweep {
    /// The events to retract, in the order of the page.
    pub targets: Vec<EventId>,
    /// Whether the page was read to its end; if not, an event did not
    /// decode, and the sweep ends in an error once `targets` are retracted.
    pub complete: bool,
}

/// The ids of a list, each by its text.
pub open spec fn ids_view(ids: Seq<EventId>) -> Seq<Seq<char>> {
    ids.map_values(|id: EventId| id@)
}

/// Whether the event carries the type tag of a plain message.
fn plain_message(event: &TimelineEvent) -> (plain: bool)
    ensures
        plain == is_plain_message(event@),
{
    match &event.event_type {
        Some(tag) => text_is(tag, "m.room.message"),
        None => false,
    }
}

/// Plans one sweep over `page` for `user`.
pub fn plan_sweep(page: &Vec<TimelineEvent>, user: &UserId) -> (sweep: Sweep)
    ensures
        ids_view(sweep.targets@) == sweep_targets(page_view(page@), user@),
        sweep.complete == sweep_is_complete(page_view(page@)),
{
    let ghost events = page_view(page@);
    let mut targets: Vec<EventId> = Vec::new();
    let mut i: usize = 0;
    assert(ids_view(targets@) =~= targets_in(events.take(0), user@));
    while i < page.len()
        invariant
            i <= page.len(),
            events == page_view(page@),
            forall|k: int| 0 <= k < i ==> !is_undecodable(#[trigger] events[k]),
            ids_view(targets@) == targets_in(events.take(i as int), user@),
        decreases page.len() - i,
    {
        let event = &page[i];
        assert(event@ == events[i as int]);
        proof {
            assert(events.take(i + 1).drop_last() =~= events.take(i as int));
            assert(events.take(i + 1).last() == events[i as int]);
        }
        if plain_message(event) {
            match &event.decoded {
                None => {
                    proof {
                        lemma_readable_len(events, i as int);
                    }
                    return Sweep { targets, complete: false };
                },
                Some(d) => {
                    if d.sender.same_as(user) && d.kind.original() {
                        let ghost before = ids_view(targets@);
                        targets.push(d.event_id.clone());
                        assert(ids_view(targets@) =~= before.push(id_of(events[i as int])));
                    }
                },
            }
        }
        i = i + 1;
    }
    proof {
        lemma_readable_len(events, i as int);
        assert(events.take(i as int) =~= events);
    }
    Sweep { targets, complete: true }
}

/// The sweep reads exactly the events before the first that stops it: `n`
/// is the number it reads if no event before `n` stops it and the page ends
/// at `n` or the event at `n` stops it.
pub proof fn lemma_readable_len(page: Seq<TimelineEventView>, n: int)
    requires
        0 <= n <= page.len(),
        forall|k: int| 0 <= k < n ==> !is_undecodable(#[trigger] page[k]),
        n < page.len() ==> is_undecodable(page[n]),
    ensures
        readable_len(page) == n,
    decreases n,
{
    if n > 0 {
        let rest = page.skip(1);
        assert forall|k: int| 0 <= k < n - 1 implies !is_undecodable(#[trigger] rest[k]) by {
            assert(rest[k] == page[k + 1]);
        }
        if n < page.len() {
            assert(rest[n - 1] == page[n]);
        }
        lemma_readable_len(rest, n - 1);
    }
}

/// The sweep never reads past the page, and no event that it reads stops it.
pub proof fn lemma_readable_len_bounds(page: Seq<TimelineEventView>)
    ensures
        readable_len(page) <= page.len(),
        forall|k: int| 0 <= k < readable_len(page) ==> !is_undecodable(#[trigger] page[k]),
        readable_len(page) < page.len() ==> is_undecodable(page[readable_len(page) as int]),
    decreases page.len(),
{
    if page.len() > 0 && !is_undecodable(page[0]) {
        let rest = page.skip(1);
        lemma_readable_len_bounds(rest);
        assert forall|k: int| 0 <= k < readable_len(page) implies !is_undecodable(
            #[trigger] page[k],
        ) by {
            if k > 0 {
                assert(rest[k - 1] == page[k]);
            }
        }
        if readable_len(page) < page.len() {
            assert(rest[readable_len(rest) as int] == page[readable_len(page) as int]);
        }
    }
}

/// Every id that the sweep retracts is that of an event among `events` that
/// is a target: a plain message, decoded, sent by exactly `user`, original.
pub proof fn lemma_targets_are_by_author(events: Seq<TimelineEventView>, user: Seq<char>, i: int)
    requires
        0 <= i < targets_in(events, user).len(),
    ensures
        exists|k: int|
            0 <= k < events.len() && is_purge_target(#[trigger] events[k], user) && id_of(
                events[k],
            ) == targets_in(events, user)[i],
    decreases events.len(),
{
    let before = events.drop_last();
    if is_purge_target(events.last(), user) && i == targets_in(before, user).len() {
        assert(is_purge_target(events[events.len() - 1], user));
    } else {
        lemma_targets_are_by_author(before, user, i);
        let k = choose|k: int|
            0 <= k < before.len() && is_purge_target(#[trigger] before[k], user) && id_of(
                before[k],
            ) == targets_in(before, user)[i];
        assert(events[k] == before[k]);
    }
}

/// Every event among `events` that is a target has its id retracted.
pub proof fn lemma_targets_are_all_there(events: Seq<TimelineEventView>, user: Seq<char>, k: int)
    requires
        0 <= k < events.len(),
        is_purge_target(events[k], user),
    ensures
        targets_in(events, user).contains(id_of(events[k])),
    decreases events.len(),
{
    let before = events.drop_last();
    let found = targets_in(events, user);
    if k == events.len() - 1 {
        assert(found[found.len() - 1] == id_of(events[k]));
    } else {
        lemma_targets_are_all_there(before, user, k);
        let j = choose|j: int|
            0 <= j < targets_in(before, user).len() && targets_in(before, user)[j] == id_of(
                before[k],
            );
        assert(found[j] == id_of(events[k]));
    }
}

/// A sweep retracts only what the author sent: each of its targets is the
/// id of an event of the page that carries the tag of a plain message,
/// decodes to an original event, and has exactly `user` as its sender,
/// whatever else the page holds.
pub proof fn lemma_sweep_spares_other_authors(page: Seq<TimelineEventView>, user: Seq<char>, i: int)
    requires
        0 <= i < sweep_targets(page, user).len(),
    ensures
        exists|k: int|
            0 <= k < page.len() && is_purge_target(#[trigger] page[k], user) && id_of(page[k])
                == sweep_targets(page, user)[i],
{
    lemma_readable_len_bounds(page);
    let read = page.take(readable_len(page) as int);
    lemma_targets_are_by_author(read, user, i);
    let k = choose|k: int|
        0 <= k < read.len() && is_purge_target(#[trigger] read[k], user) && id_of(read[k])
            == targets_in(read, user)[i];
    assert(page[k] == read[k]);
}

} // verus!
