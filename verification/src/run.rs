//! Whole runs of the dispatcher, and what holds of every run.
//!
//! A run is what the handling of one command comes to when the replies of
//! the chat session are given: the requests that are made, in their order,
//! and the outcome. The laws below hold whatever the replies are.

use vstd::prelude::*;

use crate::command::{command_of_payload, response_payload, CommandView};
use crate::dispatch::{
    advance_of, begin_of, redact_next, start_of, CommandError, OutcomeView, PendingView,
    ReplyView, RequestView, StepView, TaskView,
};
use crate::event::TimelineEventView;
use crate::frame::frame_of;
use crate::message::{reply_target_of, RelationView};
use crate::purge::{purge_reason, sweep_is_complete, sweep_targets};

verus! {

/// What the handling of a command comes to, given the replies that arrive:
/// the requests made, in their order, and the outcome, where the replies
/// last until the command is finished.
pub struct RunView {
    pub requests: Seq<RequestView>,
    pub outcome: Option<OutcomeView>,
}

/// The run that begins with `step` and is fed `replies`, one for each
/// request. Replies that arrive after the command is finished are not read.
pub open spec fn run_of(step: StepView, replies: Seq<ReplyView>) -> RunView
    decreases replies.len(),
{
    match step {
        StepView::Finished { outcome } => RunView {
            requests: Seq::empty(),
            outcome: Some(outcome),
        },
        StepView::Perform { request, pending } => if replies.len() == 0 {
            RunView { requests: seq![request], outcome: None }
        } else {
            let rest = run_of(advance_of(pending, replies[0]), replies.drop_first());
            RunView { requests: seq![request] + rest.requests, outcome: rest.outcome }
        },
    }
}

/// Whether a step asks the directory.
pub open spec fn is_lookup(step: StepView) -> bool {
    step matches StepView::Perform { request, .. } && request is ResolveAlias
}

/// Whether the request that was asked for a response is still under way.
pub open spec fn wants_response(pending: PendingView) -> bool {
    match pending {
        PendingView::Resolving { task } => task matches TaskView::Send { return_id, .. }
            && return_id,
        PendingView::Locating { task } => task matches TaskView::Send { return_id, .. }
            && return_id,
        PendingView::FetchingReply { return_id, .. } => return_id,
        PendingView::Sending { return_id } => return_id,
        PendingView::Searching { .. } => false,
        PendingView::Redacting { .. } => false,
    }
}

/// Whether a step leaves the connection without a response, now and later.
pub open spec fn is_quiet(step: StepView) -> bool {
    match step {
        StepView::Perform { pending, .. } => !wants_response(pending),
        StepView::Finished { outcome } => !(outcome is Respond),
    }
}

/// Whether a command asks for a response.
pub open spec fn asks_for_response(command: CommandView) -> bool {
    command matches CommandView::SendMessage { return_id, .. } && return_id
}

/// The directory is asked at the first step or never: no reply leads to a
/// lookup.
pub proof fn lemma_no_lookup_after_the_first_step(step: StepView, replies: Seq<ReplyView>)
    requires
        !is_lookup(step),
    ensures
        forall|i: int|
            0 <= i < run_of(step, replies).requests.len() ==> !(
            #[trigger] run_of(step, replies).requests[i] is ResolveAlias),
    decreases replies.len(),
{
    if step is Perform && replies.len() > 0 {
        let next = advance_of(step->pending, replies[0]);
        lemma_no_lookup_after_the_first_step(next, replies.drop_first());
        let rest = run_of(next, replies.drop_first());
        assert forall|i: int| 0 <= i < run_of(step, replies).requests.len() implies !(
        #[trigger] run_of(step, replies).requests[i] is ResolveAlias) by {
            if i > 0 {
                assert(run_of(step, replies).requests[i] == rest.requests[i - 1]);
            }
        }
    }
}

/// A room that is named by its id is never looked up: the first request
/// looks for the room under that very id, and whatever the replies, no
/// request of the run asks the directory. Resolving the same id again does
/// the same again.
pub proof fn lemma_room_id_needs_no_lookup(command: CommandView, replies: Seq<ReplyView>)
    requires
        command.target() is RoomId,
    ensures
        start_of(command) matches StepView::Perform { request, .. } && request
            == (RequestView::GetRoom { room_id: command.target()->RoomId_0 }),
        forall|i: int|
            0 <= i < run_of(start_of(command), replies).requests.len() ==> !(
            #[trigger] run_of(start_of(command), replies).requests[i] is ResolveAlias),
{
    lemma_no_lookup_after_the_first_step(start_of(command), replies);
}

/// A payload that is no command is dropped: nothing is asked of the
/// session, nothing is written, and the error names why the payload was
/// refused.
pub proof fn lemma_malformed_payload_is_dropped(payload: Seq<u8>, replies: Seq<ReplyView>)
    requires
        command_of_payload(payload) is Err,
    ensures
        run_of(begin_of(payload), replies).requests.len() == 0,
        run_of(begin_of(payload), replies).outcome == Some(
            OutcomeView::Failed { error: CommandError::Decode(command_of_payload(payload)->Err_0) },
        ),
{
}

/// A step that is quiet stays quiet: whatever the replies, the run does not
/// end in a response.
pub proof fn lemma_quiet_runs_stay_quiet(step: StepView, replies: Seq<ReplyView>)
    requires
        is_quiet(step),
    ensures
        !(run_of(step, replies).outcome matches Some(OutcomeView::Respond { .. })),
    decreases replies.len(),
{
    if step is Perform && replies.len() > 0 {
        lemma_quiet_runs_stay_quiet(advance_of(step->pending, replies[0]), replies.drop_first());
    }
}

/// A command that does not ask for a response gets none, not even where it
/// succeeds: no run of it ends in a frame to write.
pub proof fn lemma_no_response_unless_asked(command: CommandView, replies: Seq<ReplyView>)
    requires
        !asks_for_response(command),
    ensures
        !(run_of(start_of(command), replies).outcome matches Some(OutcomeView::Respond { .. })),
{
    lemma_quiet_runs_stay_quiet(start_of(command), replies);
}

/// A response is created only after the send succeeded, and only where the
/// request asked for it: the one step that ends in a frame is the reply
/// "sent" to a pending send that wants the id, and the frame carries the
/// response with the id of the new event.
pub proof fn lemma_response_follows_send(pending: PendingView, reply: ReplyView)
    requires
        advance_of(pending, reply) matches StepView::Finished {
            outcome: OutcomeView::Respond { .. },
        },
    ensures
        pending == (PendingView::Sending { return_id: true }),
        reply matches ReplyView::Sent(Some(id)) && advance_of(pending, reply) == (
        StepView::Finished {
            outcome: OutcomeView::Respond { frame: frame_of(response_payload(id)) },
        }),
{
}

/// The requests of a sweep are retractions of `remaining`, one after the
/// other from its head, each for the reason `purge_reason()`; the sweep
/// asks for nothing else, and stops asking at the first retraction that
/// fails.
pub proof fn lemma_redactions_follow_the_plan(
    remaining: Seq<Seq<char>>,
    complete: bool,
    replies: Seq<ReplyView>,
)
    ensures
        run_of(redact_next(remaining, complete), replies).requests.len() <= remaining.len(),
        forall|i: int|
            0 <= i < run_of(redact_next(remaining, complete), replies).requests.len() ==> (
            #[trigger] run_of(redact_next(remaining, complete), replies).requests[i])
                == (RequestView::RedactEvent { event_id: remaining[i], reason: purge_reason() }),
    decreases replies.len(),
{
    let step = redact_next(remaining, complete);
    let run = run_of(step, replies);
    if remaining.len() > 0 && replies.len() > 0 {
        let next = advance_of(step->pending, replies[0]);
        let rest = run_of(next, replies.drop_first());
        if replies[0] == ReplyView::Redacted(true) {
            lemma_redactions_follow_the_plan(
                remaining.drop_first(),
                complete,
                replies.drop_first(),
            );
        }
        assert forall|i: int| 0 <= i < run.requests.len() implies (#[trigger] run.requests[i])
            == (RequestView::RedactEvent { event_id: remaining[i], reason: purge_reason() }) by {
            if i > 0 {
                assert(run.requests[i] == rest.requests[i - 1]);
                assert(remaining.drop_first()[i - 1] == remaining[i]);
            }
        }
    }
}

/// Once the page of history has arrived, a sweep for `user` retracts only
/// events that the plan for that page names, in the plan's order.
pub proof fn lemma_sweep_retracts_only_planned_events(
    user: Seq<char>,
    page: Seq<TimelineEventView>,
    replies: Seq<ReplyView>,
)
    ensures
        ({
            let run = run_of(
                advance_of(PendingView::Searching { user }, ReplyView::HistoryPage(Some(page))),
                replies,
            );
            &&& run.requests.len() <= sweep_targets(page, user).len()
            &&& forall|i: int|
                0 <= i < run.requests.len() ==> (#[trigger] run.requests[i])
                    == (RequestView::RedactEvent {
                    event_id: sweep_targets(page, user)[i],
                    reason: purge_reason(),
                })
        }),
{
    lemma_redactions_follow_the_plan(sweep_targets(page, user), sweep_is_complete(page), replies);
}

/// A retraction that fails ends the sweep there: nothing more is asked of
/// the session, what was retracted before stays as it is, and the failure
/// is an error for the log, not a response.
pub proof fn lemma_failed_retraction_ends_the_sweep(
    remaining: Seq<Seq<char>>,
    complete: bool,
    replies: Seq<ReplyView>,
)
    ensures
        ({
            let run = run_of(
                advance_of(
                    PendingView::Redacting { remaining, complete },
                    ReplyView::Redacted(false),
                ),
                replies,
            );
            &&& run.requests.len() == 0
            &&& run.outcome == Some(OutcomeView::Failed { error: CommandError::RemoteAction })
        }),
{
}

/// A message that both replaces an event and answers one that was found is
/// sent as an edit with the answered message as its fallback.
pub proof fn lemma_edit_with_reply_is_sent_as_edit(
    content: Seq<char>,
    html_content: Option<Seq<char>>,
    replaces: Seq<char>,
    return_id: bool,
    fetched: TimelineEventView,
)
    requires
        reply_target_of(Some(fetched)) is Some,
    ensures
        advance_of(
            PendingView::FetchingReply {
                content,
                html_content,
                replaces: Some(replaces),
                return_id,
            },
            ReplyView::Event(Some(fetched)),
        ) matches StepView::Perform { request: RequestView::SendMessage { body }, .. }
            && body.text == content && body.html == html_content && body.relation
            == (RelationView::Replacement {
            of: replaces,
            reply_fallback: reply_target_of(Some(fetched)),
        }),
{
}

} // verus!
