//! The decisions taken while one command is carried out.
//!
//! Handling a command alternates between deciding and waiting: for the
//! directory, for the room, for an event, for the send, for a page of
//! history, for a retraction. The deciding is done here, one step at a time.
//! A step either finishes the command or names the one request to perform
//! next, together with what is kept in mind until its reply arrives. The
//! caller performs the request against the chat session, hands the reply to
//! `advance`, and goes on until the command is finished. No step retries,
//! and no failure of one command reaches another.

use vstd::prelude::*;

use crate::command::{
    command_of_payload, decode_command, encode_response, event_id_view, response_payload,
    text_view, Command, CommandView, DecodeError, Response,
};
use crate::event::{fetched_view, page_view, TimelineEvent, TimelineEventView};
use crate::frame::{encode, frame_of, MAX_PAYLOAD_LEN};
use crate::ident::{EventId, RoomAlias, RoomId, RoomReference, RoomReferenceView, UserId};
use crate::message::{
    build_message, message_of, reply_target, reply_target_of, MessageBody, MessageBodyView,
};
use crate::purge::{
    ids_view, plan_sweep, purge_reason, sweep_is_complete, sweep_targets, PAGE_LIMIT,
};

verus! {

/// What the chat session is asked to do next.
#[derive(Debug, PartialEq, Eq)]
pub enum Request {
    /// Look the alias up in the remote directory.
    ResolveAlias { alias: RoomAlias },
    /// Find the local handle of the room; every later request of the command
    /// acts in that room.
    GetRoom { room_id: RoomId },
    /// Fetch one event of the room.
    FetchEvent { event_id: EventId },
    /// Send a message to the room.
    SendMessage { body: MessageBody },
    /// Fetch one page of the room's history, backward from its end, with at
    /// most `limit` events, filtered by the server to those that `sender` sent.
    FetchHistoryPage { sender: UserId, limit: u64 },
    /// Retract one event of the room, for the reason given.
    RedactEvent { event_id: EventId, reason: String },
}

/// What a `Request` holds.
pub enum RequestView {
    ResolveAlias { alias: Seq<char> },
    GetRoom { room_id: Seq<char> },
    FetchEvent { event_id: Seq<char> },
    SendMessage { body: MessageBodyView },
    FetchHistoryPage { sender: Seq<char>, limit: u64 },
    RedactEvent { event_id: Seq<char>, reason: Seq<char> },
}

impl View for Request {
    type V = RequestView;

    open spec fn view(&self) -> RequestView {
        match self {
            Request::ResolveAlias { alias } => RequestView::ResolveAlias { alias: alias@ },
            Request::GetRoom { room_id } => RequestView::GetRoom { room_id: room_id@ },
            Request::FetchEvent { event_id } => RequestView::FetchEvent { event_id: event_id@ },
            Request::SendMessage { body } => RequestView::SendMessage { body: body@ },
            Request::FetchHistoryPage { sender, limit } => RequestView::FetchHistoryPage {
                sender: sender@,
                limit: *limit,
            },
            Request::RedactEvent { event_id, reason } => RequestView::RedactEvent {
                event_id: event_id@,
                reason: reason@,
            },
        }
    }
}

/// What came back from the chat session.
#[derive(Debug, PartialEq, Eq)]
pub enum Reply {
    /// The room that the alias stands for; none where the alias is unknown
    /// or the lookup failed.
    AliasResolved(Option<RoomId>),
    /// Whether the session knows the room.
    Room(bool),
    /// The event that was asked for; none where the fetch failed.
    Event(Option<TimelineEvent>),
    /// The id of the event that the send created; none where it failed.
    Sent(Option<EventId>),
    /// The page of history; none where the fetch failed.
    HistoryPage(Option<Vec<TimelineEvent>>),
    /// Whether the retraction succeeded.
    Redacted(bool),
}

/// What a `Reply` holds.
pub enum ReplyView {
    AliasResolved(Option<Seq<char>>),
    Room(bool),
    Event(Option<TimelineEventView>),
    Sent(Option<Seq<char>>),
    HistoryPage(Option<Seq<TimelineEventView>>),
    Redacted(bool),
}

impl View for Reply {
    type V = ReplyView;

    open spec fn view(&self) -> ReplyView {
        match self {
            Reply::AliasResolved(id) => ReplyView::AliasResolved(
                match id {
                    Some(r) => Some(r@),
                    None => None,
                },
            ),
            Reply::Room(found) => ReplyView::Room(*found),
            Reply::Event(event) => ReplyView::Event(fetched_view(*event)),
            Reply::Sent(id) => ReplyView::Sent(event_id_view(*id)),
            Reply::HistoryPage(page) => ReplyView::HistoryPage(
                match page {
                    Some(p) => Some(page_view(p@)),
                    None => None,
                },
            ),
            Reply::Redacted(done) => ReplyView::Redacted(*done),
        }
    }
}

/// Why a command was given up.
#[derive(Clone, Copy, Debug, PartialEq, Eq, Structural)]
pub enum CommandError {
    /// The payload is no command.
    Decode(DecodeError),
    /// The alias is unknown, or looking it up failed.
    Resolution,
    /// The session does not know the room.
    RoomNotFound,
    /// Sending, fetching the history or retracting failed.
    RemoteAction,
    /// An event of the history that had to be read did not decode.
    MalformedEvent,
    /// The response does not fit into one frame.
    ResponseTooLarge,
    /// The reply does not answer the request that was pending.
    UnexpectedReply,
}

/// How the handling of one command ended. However it ended, the connection
/// stays open for the next frame.
#[derive(Debug, PartialEq, Eq)]
pub enum Outcome {
    /// The command was carried out and nothing is to be written.
    Done,
    /// The command was carried out and this frame is to be written to the
    /// connection that it came from.
    Respond { frame: Vec<u8> },
    /// The command was given up. The error is for the log; nothing is
    /// written to the connection.
    Failed { error: CommandError },
}

/// What an `Outcome` holds.
pub enum OutcomeView {
    Done,
    Respond { frame: Seq<u8> },
    Failed { error: CommandError },
}

impl View for Outcome {
    type V = OutcomeView;

    open spec fn view(&self) -> OutcomeView {
        match self {
            Outcome::Done => OutcomeView::Done,
            Outcome::Respond { frame } => OutcomeView::Respond { frame: frame@ },
            Outcome::Failed { error } => OutcomeView::Failed { error: *error },
        }
    }
}

/// What a command still has to do once its room is known.
#[derive(Debug, PartialEq, Eq)]
pub enum Task {
    Send {
        content: String,
        html_content: Option<String>,
        reply_to: Option<EventId>,
        replaces: Option<EventId>,
        return_id: bool,
    },
    Purge { user: UserId },
}

/// What a `Task` holds.
pub enum TaskView {
    Send {
        content: Seq<char>,
        html_content: Option<Seq<char>>,
        reply_to: Option<Seq<char>>,
        replaces: Option<Seq<char>>,
        return_id: bool,
    },
    Purge { user: Seq<char> },
}

impl View for Task {
    type V = TaskView;

    open spec fn view(&self) -> TaskView {
        match self {
            Task::Send { content, html_content, reply_to, replaces, return_id } => TaskView::Send {
                content: content@,
                html_content: text_view(*html_content),
                reply_to: event_id_view(*reply_to),
                replaces: event_id_view(*replaces),
                return_id: *return_id,
            },
            Task::Purge { user } => TaskView::Purge { user: user@ },
        }
    }
}

/// What is kept in mind while a request is under way.
#[derive(Debug, PartialEq, Eq)]
pub enum Pending {
    /// The alias is being looked up.
    Resolving { task: Task },
    /// The room is being looked for.
    Locating { task: Task },
    /// The message to reply to is being fetched.
    FetchingReply {
        content: String,
        html_content: Option<String>,
        replaces: Option<EventId>,
        return_id: bool,
    },
    /// The message is being sent.
    Sending { return_id: bool },
    /// The page of history is being fetched.
    Searching { user: UserId },
    /// An event is being retracted; `remaining` are those to retract after
    /// it, and `complete` says whether the page was read to its end.
    Redacting { remaining: Vec<EventId>, complete: bool },
}

/// What a `Pending` holds.
pub enum PendingView {
    Resolving { task: TaskView },
    Locating { task: TaskView },
    FetchingReply {
        content: Seq<char>,
        html_content: Option<Seq<char>>,
        replaces: Option<Seq<char>>,
        return_id: bool,
    },
    Sending { return_id: bool },
    Searching { user: Seq<char> },
    Redacting { remaining: Seq<Seq<char>>, complete: bool },
}

impl View for Pending {
    type V = PendingView;

    open spec fn view(&self) -> PendingView {
        match self {
            Pending::Resolving { task } => PendingView::Resolving { task: task@ },
            Pending::Locating { task } => PendingView::Locating { task: task@ },
            Pending::FetchingReply { content, html_content, replaces, return_id } => {
                PendingView::FetchingReply {
                    content: content@,
                    html_content: text_view(*html_content),
                    replaces: event_id_view(*replaces),
                    return_id: *return_id,
                }
            },
            Pending::Sending { return_id } => PendingView::Sending { return_id: *return_id },
            Pending::Searching { user } => PendingView::Searching { user: user@ },
            Pending::Redacting { remaining, complete } => PendingView::Redacting {
                remaining: ids_view(remaining@),
                complete: *complete,
            },
        }
    }
}

/// One step in the handling of a command.
#[derive(Debug, PartialEq, Eq)]
pub enum Step {
    /// Perform `request` and hand its reply, with `pending`, to `advance`.
    Perform { request: Request, pending: Pending },
    /// The command is finished.
    Finished { outcome: Outcome },
}

/// What a `Step` holds.
pub enum StepView {
    Perform { request: RequestView, pending: PendingView },
    Finished { outcome: OutcomeView },
}

impl View for Step {
    type V = StepView;

    open spec fn view(&self) -> StepView {
        match self {
            Step::Perform { request, pending } => StepView::Perform {
                request: request@,
                pending: pending@,
            },
            Step::Finished { outcome } => StepView::Finished { outcome: outcome@ },
        }
    }
}

/// The step that gives a command up.
pub open spec fn failed(error: CommandError) -> StepView {
    StepView::Finished { outcome: OutcomeView::Failed { error } }
}

/// What a command has to do once its room is known.
pub open spec fn task_of(command: CommandView) -> TaskView {
    match command {
        CommandView::SendMessage { content, html_content, reply_to, replaces, return_id, .. } => {
            TaskView::Send { content, html_content, reply_to, replaces, return_id }
        },
        CommandView::DeleteUserMessages { user, .. } => TaskView::Purge { user },
    }
}

/// The first step of a command: a room id is taken as it is and the room is
/// looked for at once; only an alias is looked up in the directory.
pub open spec fn start_of(command: CommandView) -> StepView {
    match command.target() {
        RoomReferenceView::RoomId(room_id) => StepView::Perform {
            request: RequestView::GetRoom { room_id },
            pending: PendingView::Locating { task: task_of(command) },
        },
        RoomReferenceView::RoomAlias(alias) => StepView::Perform {
            request: RequestView::ResolveAlias { alias },
            pending: PendingView::Resolving { task: task_of(command) },
        },
    }
}

/// The first step for a payload: a payload that is no command is given up
/// at once.
pub open spec fn begin_of(payload: Seq<u8>) -> StepView {
    match command_of_payload(payload) {
        Ok(command) => start_of(command),
        Err(e) => failed(CommandError::Decode(e)),
    }
}

/// The step that sends the message of a request.
pub open spec fn send_step(body: MessageBodyView, return_id: bool) -> StepView {
    StepView::Perform {
        request: RequestView::SendMessage { body },
        pending: PendingView::Sending { return_id },
    }
}

/// The step that follows once the room was found.
pub open spec fn enter_room(task: TaskView) -> StepView {
    match task {
        TaskView::Send { content, html_content, reply_to, replaces, return_id } => match reply_to {
            Some(event_id) => StepView::Perform {
                request: RequestView::FetchEvent { event_id },
                pending: PendingView::FetchingReply { content, html_content, replaces, return_id },
            },
            None => send_step(message_of(content, html_content, replaces, None), return_id),
        },
        TaskView::Purge { user } => StepView::Perform {
            request: RequestView::FetchHistoryPage { sender: user, limit: PAGE_LIMIT },
            pending: PendingView::Searching { user },
        },
    }
}

/// The step that follows in a sweep: the next retraction, or the end. A
/// sweep that could not read its page to the end ends in an error, after
/// everything before the unreadable event was retracted.
pub open spec fn redact_next(remaining: Seq<Seq<char>>, complete: bool) -> StepView {
    if remaining.len() > 0 {
        StepView::Perform {
            request: RequestView::RedactEvent { event_id: remaining[0], reason: purge_reason() },
            pending: PendingView::Redacting { remaining: remaining.drop_first(), complete },
        }
    } else if complete {
        StepView::Finished { outcome: OutcomeView::Done }
    } else {
        failed(CommandError::MalformedEvent)
    }
}

/// The step that ends a send that succeeded: the id of the new event is
/// answered only where the request asked for it.
pub open spec fn sent_step(event_id: Seq<char>, return_id: bool) -> StepView {
    if !return_id {
        StepView::Finished { outcome: OutcomeView::Done }
    } else if response_payload(event_id).len() <= MAX_PAYLOAD_LEN {
        StepView::Finished {
            outcome: OutcomeView::Respond { frame: frame_of(response_payload(event_id)) },
        }
    } else {
        failed(CommandError::ResponseTooLarge)
    }
}

/// The step that follows when `reply` arrives while `pending` is kept in
/// mind.
pub open spec fn advance_of(pending: PendingView, reply: ReplyView) -> StepView {
    match (pending, reply) {
        (PendingView::Resolving { task }, ReplyView::AliasResolved(Some(room_id))) => {
            StepView::Perform {
                request: RequestView::GetRoom { room_id },
                pending: PendingView::Locating { task },
            }
        },
        (PendingView::Resolving { .. }, ReplyView::AliasResolved(None)) => failed(
            CommandError::Resolution,
        ),
        (PendingView::Locating { task }, ReplyView::Room(true)) => enter_room(task),
        (PendingView::Locating { .. }, ReplyView::Room(false)) => failed(
            CommandError::RoomNotFound,
        ),
        (
            PendingView::FetchingReply { content, html_content, replaces, return_id },
            ReplyView::Event(fetched),
        ) => send_step(
            message_of(content, html_content, replaces, reply_target_of(fetched)),
            return_id,
        ),
        (PendingView::Sending { return_id }, ReplyView::Sent(Some(event_id))) => sent_step(
            event_id,
            return_id,
        ),
        (PendingView::Sending { .. }, ReplyView::Sent(None)) => failed(CommandError::RemoteAction),
        (PendingView::Searching { user }, ReplyView::HistoryPage(Some(page))) => redact_next(
            sweep_targets(page, user),
            sweep_is_complete(page),
        ),
        (PendingView::Searching { .. }, ReplyView::HistoryPage(None)) => failed(
            CommandError::RemoteAction,
        ),
        (PendingView::Redacting { remaining, complete }, ReplyView::Redacted(true)) => redact_next(
            remaining,
            complete,
        ),
        (PendingView::Redacting { .. }, ReplyView::Redacted(false)) => failed(
            CommandError::RemoteAction,
        ),
        _ => failed(CommandError::UnexpectedReply),
    }
}

/// The step that gives a command up.
fn fail(error: CommandError) -> (step: Step)
    ensures
        step@ == failed(error),
{
    Step::Finished { outcome: Outcome::Failed { error } }
}

/// Splits a command into the room it names and what is to be done there.
fn split(command: Command) -> (parts: (RoomReference, Task))
    ensures
        parts.0@ == command@.target(),
        parts.1@ == task_of(command@),
{
    match command {
        Command::SendMessage { target, content, html_content, reply_to, replaces, return_id } => (
            target,
            Task::Send { content, html_content, reply_to, replaces, return_id },
        ),
        Command::DeleteUserMessages { target, user } => (target, Task::Purge { user }),
    }
}

/// Takes the first step of a command.
pub fn start(command: Command) -> (step: Step)
    ensures
        step@ == start_of(command@),
{
    let (target, task) = split(command);
    match target {
        RoomReference::RoomId(room_id) => Step::Perform {
            request: Request::GetRoom { room_id },
            pending: Pending::Locating { task },
        },
        RoomReference::RoomAlias(alias) => Step::Perform {
            request: Request::ResolveAlias { alias },
            pending: Pending::Resolving { task },
        },
    }
}

/// Takes the first step for the payload of a frame: decodes it and starts
/// the command, or gives it up where it is no command.
pub fn begin(payload: &[u8]) -> (step: Step)
    ensures
        step@ == begin_of(payload@),
{
    match decode_command(payload) {
        Ok(command) => start(command),
        Err(e) => fail(CommandError::Decode(e)),
    }
}

/// The step that sends `body`.
fn send(body: MessageBody, return_id: bool) -> (step: Step)
    ensures
        step@ == send_step(body@, return_id),
{
    Step::Perform { request: Request::SendMessage { body }, pending: Pending::Sending { return_id } }
}

/// The step that follows once the room was found.
fn enter(task: Task) -> (step: Step)
    ensures
        step@ == enter_room(task@),
{
    match task {
        Task::Send { content, html_content, reply_to, replaces, return_id } => match reply_to {
            Some(event_id) => Step::Perform {
                request: Request::FetchEvent { event_id },
                pending: Pending::FetchingReply { content, html_content, replaces, return_id },
            },
            None => send(build_message(content, html_content, replaces, None), return_id),
        },
        Task::Purge { user } => {
            let sender = user.clone();
            Step::Perform {
                request: Request::FetchHistoryPage { sender, limit: PAGE_LIMIT },
                pending: Pending::Searching { user },
            }
        },
    }
}

/// The step that follows in a sweep.
fn redact(remaining: Vec<EventId>, complete: bool) -> (step: Step)
    ensures
        step@ == redact_next(ids_view(remaining@), complete),
{
    let mut remaining = remaining;
    if remaining.len() > 0 {
        let ghost before = ids_view(remaining@);
        let event_id = remaining.remove(0);
        assert(ids_view(remaining@) =~= before.drop_first());
        assert(event_id@ == before[0]);
        Step::Perform {
            request: Request::RedactEvent { event_id, reason: "spam".to_owned() },
            pending: Pending::Redacting { remaining, complete },
        }
    } else if complete {
        Step::Finished { outcome: Outcome::Done }
    } else {
        fail(CommandError::MalformedEvent)
    }
}

/// The step that ends a send that succeeded.
fn sent(event_id: EventId, return_id: bool) -> (step: Step)
    ensures
        step@ == sent_step(event_id@, return_id),
{
    if !return_id {
        return Step::Finished { outcome: Outcome::Done };
    }
    let payload = encode_response(&Response { id: event_id });
    match encode(payload.as_slice()) {
        Ok(frame) => Step::Finished { outcome: Outcome::Respond { frame } },
        Err(_) => fail(CommandError::ResponseTooLarge),
    }
}

/// Takes the step that follows when `reply` arrives while `pending` is kept
/// in mind. A reply that does not answer the pending request gives the
/// command up.
pub fn advance(pending: Pending, reply: Reply) -> (step: Step)
    ensures
        step@ == advance_of(pending@, reply@),
{
    match pending {
        Pending::Resolving { task } => match reply {
            Reply::AliasResolved(Some(room_id)) => Step::Perform {
                request: Request::GetRoom { room_id },
                pending: Pending::Locating { task },
            },
            Reply::AliasResolved(None) => fail(CommandError::Resolution),
            _ => fail(CommandError::UnexpectedReply),
        },
        Pending::Locating { task } => match reply {
            Reply::Room(true) => enter(task),
            Reply::Room(false) => fail(CommandError::RoomNotFound),
            _ => fail(CommandError::UnexpectedReply),
        },
        Pending::FetchingReply { content, html_content, replaces, return_id } => match reply {
            Reply::Event(fetched) => send(
                build_message(content, html_content, replaces, reply_target(fetched)),
                return_id,
            ),
            _ => fail(CommandError::UnexpectedReply),
        },
        Pending::Sending { return_id } => match reply {
            Reply::Sent(Some(event_id)) => sent(event_id, return_id),
            Reply::Sent(None) => fail(CommandError::RemoteAction),
            _ => fail(CommandError::UnexpectedReply),
        },
        Pending::Searching { user } => match reply {
            Reply::HistoryPage(Some(page)) => {
                let sweep = plan_sweep(&page, &user);
                redact(sweep.targets, sweep.complete)
            },
            Reply::HistoryPage(None) => fail(CommandError::RemoteAction),
            _ => fail(CommandError::UnexpectedReply),
        },
        Pending::Redacting { remaining, complete } => match reply {
            Reply::Redacted(true) => redact(remaining, complete),
            Reply::Redacted(false) => fail(CommandError::RemoteAction),
            _ => fail(CommandError::UnexpectedReply),
        },
    }
}

} // verus!
