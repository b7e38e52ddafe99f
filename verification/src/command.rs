//! The commands of the control channel and their wire form.
//!
//! A request is a JSON object with a discriminator `cmd` and the fields of
//! the command it names. Fields that the command does not have are refused,
//! and so are discriminators that name no command.

use vstd::prelude::*;
use vstd::string::*;
use vstd::utf8::*;

use crate::ident::{
    is_event_id, is_user_id, room_reference_of, EventId, RoomReference, RoomReferenceView, UserId,
};
use crate::json::{
    field_value, fields_view, find_field, json_object_fields, lemma_field_has_value,
    lemma_value_has_field, object_text, parse_object, same_lookups, text_is, utf8_text,
    writable, write_object, JsonField, JsonFieldView, JsonValue, JsonValueView,
};

verus! {

/// One instruction received over the control channel.
#[derive(Debug, PartialEq, Eq)]
pub enum Command {
    /// Send a message to a room, as a new message, a reply or an edit.
    SendMessage {
        target: RoomReference,
        content: String,
        html_content: Option<String>,
        reply_to: Option<EventId>,
        replaces: Option<EventId>,
        return_id: bool,
    },
    /// Retract the recent messages of one user in a room.
    DeleteUserMessages { target: RoomReference, user: UserId },
}

/// What a `Command` holds.
pub enum CommandView {
    SendMessage {
        target: RoomReferenceView,
        content: Seq<char>,
        html_content: Option<Seq<char>>,
        reply_to: Option<Seq<char>>,
        replaces: Option<Seq<char>>,
        return_id: bool,
    },
    DeleteUserMessages { target: RoomReferenceView, user: Seq<char> },
}

/// The text that an optional text holds, if any.
pub open spec fn text_view(text: Option<String>) -> Option<Seq<char>> {
    match text {
        Some(t) => Some(t@),
        None => None,
    }
}

/// The text of an optional event id, if any.
pub open spec fn event_id_view(id: Option<EventId>) -> Option<Seq<char>> {
    match id {
        Some(e) => Some(e@),
        None => None,
    }
}

impl View for Command {
    type V = CommandView;

    open spec fn view(&self) -> CommandView {
        match self {
            Command::SendMessage { target, content, html_content, reply_to, replaces, return_id } => {
                CommandView::SendMessage {
                    target: target@,
                    content: content@,
                    html_content: text_view(*html_content),
                    reply_to: event_id_view(*reply_to),
                    replaces: event_id_view(*replaces),
                    return_id: *return_id,
                }
            },
            Command::DeleteUserMessages { target, user } => CommandView::DeleteUserMessages {
                target: target@,
                user: user@,
            },
        }
    }
}

impl CommandView {
    /// Whether every identifier in the command is one of its kind.
    pub open spec fn wf(self) -> bool {
        match self {
            CommandView::SendMessage { target, reply_to, replaces, .. } => {
                &&& target.wf()
                &&& reply_to matches Some(e) ==> is_event_id(e)
                &&& replaces matches Some(e) ==> is_event_id(e)
            },
            CommandView::DeleteUserMessages { target, user } => target.wf() && is_user_id(user),
        }
    }

    /// The room that the command is to act in.
    pub open spec fn target(self) -> RoomReferenceView {
        match self {
            CommandView::SendMessage { target, .. } => target,
            CommandView::DeleteUserMessages { target, .. } => target,
        }
    }
}

/// Why a payload is no command.
#[derive(Clone, Copy, Debug, PartialEq, Eq, Structural)]
pub enum DecodeError {
    /// The payload is not UTF-8.
    InvalidUtf8,
    /// The payload is not a JSON object.
    InvalidJson,
    /// The object has no field `cmd`, or its value is no text.
    MissingCommand,
    /// The field `cmd` names no command.
    UnknownCommand,
    /// The object has a field that the command does not have.
    UnknownField,
    /// A field that the command needs is not there.
    MissingField,
    /// A field holds a value of the wrong kind, or a text that is no
    /// identifier of the kind asked for.
    InvalidField,
}

/// A decoding result, its command by its view.
pub open spec fn decoded_view(result: Result<Command, DecodeError>) -> Result<
    CommandView,
    DecodeError,
> {
    match result {
        Ok(c) => Ok(c@),
        Err(e) => Err(e),
    }
}

/// Whether a `send_message` request may have a field called `name`.
pub open spec fn send_message_key(name: Seq<char>) -> bool {
    ||| name == "cmd"@
    ||| name == "target"@
    ||| name == "content"@
    ||| name == "html_content"@
    ||| name == "reply_to"@
    ||| name == "replaces"@
    ||| name == "return_id"@
}

/// Whether a `delete_user_messages` request may have a field called `name`.
pub open spec fn delete_user_messages_key(name: Seq<char>) -> bool {
    ||| name == "cmd"@
    ||| name == "target"@
    ||| name == "user"@
}

/// Whether every field of `fields` is one that the command may have: a
/// `send_message` where `send` holds, a `delete_user_messages` where not.
pub open spec fn only_known_keys(fields: Seq<JsonFieldView>, send: bool) -> bool {
    forall|i: int|
        0 <= i < fields.len() ==> if send {
            send_message_key(#[trigger] fields[i].name)
        } else {
            delete_user_messages_key(#[trigger] fields[i].name)
        }
}

/// The text that a required field holds.
pub open spec fn text_of(fields: Seq<JsonFieldView>, name: Seq<char>) -> Result<
    Seq<char>,
    DecodeError,
> {
    match field_value(fields, name) {
        None => Err(DecodeError::MissingField),
        Some(JsonValueView::Text(t)) => Ok(t),
        Some(_) => Err(DecodeError::InvalidField),
    }
}

/// The text that an optional field holds: none where the field is absent or
/// null.
pub open spec fn optional_text_of(fields: Seq<JsonFieldView>, name: Seq<char>) -> Result<
    Option<Seq<char>>,
    DecodeError,
> {
    match field_value(fields, name) {
        None => Ok(None),
        Some(JsonValueView::Null) => Ok(None),
        Some(JsonValueView::Text(t)) => Ok(Some(t)),
        Some(_) => Err(DecodeError::InvalidField),
    }
}

/// The event id that an optional field holds.
pub open spec fn optional_event_id_of(fields: Seq<JsonFieldView>, name: Seq<char>) -> Result<
    Option<Seq<char>>,
    DecodeError,
> {
    match optional_text_of(fields, name) {
        Ok(Some(t)) => if is_event_id(t) {
            Ok(Some(t))
        } else {
            Err(DecodeError::InvalidField)
        },
        other => other,
    }
}

/// The boolean that a field with a default holds: `false` where the field is
/// absent.
pub open spec fn flag_of(fields: Seq<JsonFieldView>, name: Seq<char>) -> Result<
    bool,
    DecodeError,
> {
    match field_value(fields, name) {
        None => Ok(false),
        Some(JsonValueView::Bool(b)) => Ok(b),
        Some(_) => Err(DecodeError::InvalidField),
    }
}

/// The room that the field `target` names.
pub open spec fn target_of(fields: Seq<JsonFieldView>) -> Result<RoomReferenceView, DecodeError> {
    match text_of(fields, "target"@) {
        Err(e) => Err(e),
        Ok(t) => match room_reference_of(t) {
            Some(r) => Ok(r),
            None => Err(DecodeError::InvalidField),
        },
    }
}

/// The `send_message` command that `fields` spell. The first fault decides
/// the error: a field that is not known, then each field in the order
/// `target`, `content`, `html_content`, `reply_to`, `replaces`, `return_id`.
pub open spec fn send_message_of(fields: Seq<JsonFieldView>) -> Result<CommandView, DecodeError> {
    let target = target_of(fields);
    let content = text_of(fields, "content"@);
    let html_content = optional_text_of(fields, "html_content"@);
    let reply_to = optional_event_id_of(fields, "reply_to"@);
    let replaces = optional_event_id_of(fields, "replaces"@);
    let return_id = flag_of(fields, "return_id"@);
    if !only_known_keys(fields, true) {
        Err(DecodeError::UnknownField)
    } else if target is Err {
        Err(target->Err_0)
    } else if content is Err {
        Err(content->Err_0)
    } else if html_content is Err {
        Err(html_content->Err_0)
    } else if reply_to is Err {
        Err(reply_to->Err_0)
    } else if replaces is Err {
        Err(replaces->Err_0)
    } else if return_id is Err {
        Err(return_id->Err_0)
    } else {
        Ok(
            CommandView::SendMessage {
                target: target->Ok_0,
                content: content->Ok_0,
                html_content: html_content->Ok_0,
                reply_to: reply_to->Ok_0,
                replaces: replaces->Ok_0,
                return_id: return_id->Ok_0,
            },
        )
    }
}

/// The user that the field `user` names.
pub open spec fn user_of(fields: Seq<JsonFieldView>) -> Result<Seq<char>, DecodeError> {
    match text_of(fields, "user"@) {
        Err(e) => Err(e),
        Ok(t) => if is_user_id(t) {
            Ok(t)
        } else {
            Err(DecodeError::InvalidField)
        },
    }
}

/// The `delete_user_messages` command that `fields` spell. The first fault
/// decides the error: a field that is not known, then `target`, then `user`.
pub open spec fn delete_user_messages_of(fields: Seq<JsonFieldView>) -> Result<
    CommandView,
    DecodeError,
> {
    let target = target_of(fields);
    let user = user_of(fields);
    if !only_known_keys(fields, false) {
        Err(DecodeError::UnknownField)
    } else if target is Err {
        Err(target->Err_0)
    } else if user is Err {
        Err(user->Err_0)
    } else {
        Ok(CommandView::DeleteUserMessages { target: target->Ok_0, user: user->Ok_0 })
    }
}

/// The command that the fields of a request spell.
pub open spec fn command_of_fields(fields: Seq<JsonFieldView>) -> Result<CommandView, DecodeError> {
    match field_value(fields, "cmd"@) {
        Some(JsonValueView::Text(tag)) => if tag == "send_message"@ {
            send_message_of(fields)
        } else if tag == "delete_user_messages"@ {
            delete_user_messages_of(fields)
        } else {
            Err(DecodeError::UnknownCommand)
        },
        _ => Err(DecodeError::MissingCommand),
    }
}

/// The command that a payload spells: UTF-8, then a JSON object, then the
/// fields of one command.
pub open spec fn command_of_payload(payload: Seq<u8>) -> Result<CommandView, DecodeError> {
    if !valid_utf8(payload) {
        Err(DecodeError::InvalidUtf8)
    } else {
        match json_object_fields(decode_utf8(payload)) {
            None => Err(DecodeError::InvalidJson),
            Some(fields) => command_of_fields(fields),
        }
    }
}

/// Whether the command chosen by `send` may have a field called `name`.
fn known_key(name: &String, send: bool) -> (known: bool)
    ensures
        known == if send {
            send_message_key(name@)
        } else {
            delete_user_messages_key(name@)
        },
{
    if text_is(name, "cmd") || text_is(name, "target") {
        true
    } else if send {
        text_is(name, "content") || text_is(name, "html_content") || text_is(name, "reply_to")
            || text_is(name, "replaces") || text_is(name, "return_id")
    } else {
        text_is(name, "user")
    }
}

/// Whether `fields` holds no field that the command chosen by `send` lacks.
fn has_only_known_keys(fields: &Vec<JsonField>, send: bool) -> (known: bool)
    ensures
        known == only_known_keys(fields_view(fields@), send),
{
    let mut i: usize = 0;
    while i < fields.len()
        invariant
            i <= fields.len(),
            only_known_keys(fields_view(fields@).take(i as int), send),
        decreases fields.len() - i,
    {
        if !known_key(&fields[i].name, send) {
            proof {
                assert(fields_view(fields@)[i as int].name == fields@[i as int].name@);
            }
            return false;
        }
        proof {
            let all = fields_view(fields@);
            assert forall|k: int| 0 <= k < i + 1 implies if send {
                send_message_key(#[trigger] all.take(i + 1)[k].name)
            } else {
                delete_user_messages_key(#[trigger] all.take(i + 1)[k].name)
            } by {
                if k < i {
                    assert(all.take(i as int)[k] == all.take(i + 1)[k]);
                }
            }
        }
        i = i + 1;
    }
    proof {
        assert(fields_view(fields@).take(i as int) =~= fields_view(fields@));
    }
    true
}

/// Reads a field that must hold a text.
fn required_text(fields: &Vec<JsonField>, name: &str) -> (text: Result<String, DecodeError>)
    ensures
        match text {
            Ok(t) => text_of(fields_view(fields@), name@) == Ok::<Seq<char>, DecodeError>(t@),
            Err(e) => text_of(fields_view(fields@), name@) == Err::<Seq<char>, DecodeError>(e),
        },
{
    match find_field(fields, name) {
        None => Err(DecodeError::MissingField),
        Some(JsonValue::Text(t)) => Ok(t.clone()),
        Some(_) => Err(DecodeError::InvalidField),
    }
}

/// Reads a field that may hold a text, be null or be absent.
fn optional_text(fields: &Vec<JsonField>, name: &str) -> (text: Result<
    Option<String>,
    DecodeError,
>)
    ensures
        match text {
            Ok(t) => optional_text_of(fields_view(fields@), name@) == Ok::<
                Option<Seq<char>>,
                DecodeError,
            >(text_view(t)),
            Err(e) => optional_text_of(fields_view(fields@), name@) == Err::<
                Option<Seq<char>>,
                DecodeError,
            >(e),
        },
{
    match find_field(fields, name) {
        None => Ok(None),
        Some(JsonValue::Null) => Ok(None),
        Some(JsonValue::Text(t)) => Ok(Some(t.clone())),
        Some(_) => Err(DecodeError::InvalidField),
    }
}

/// Reads a field that may hold an event id, be null or be absent.
fn optional_event_id(fields: &Vec<JsonField>, name: &str) -> (id: Result<
    Option<EventId>,
    DecodeError,
>)
    ensures
        match id {
            Ok(e) => optional_event_id_of(fields_view(fields@), name@) == Ok::<
                Option<Seq<char>>,
                DecodeError,
            >(event_id_view(e)),
            Err(e) => optional_event_id_of(fields_view(fields@), name@) == Err::<
                Option<Seq<char>>,
                DecodeError,
            >(e),
        },
{
    match optional_text(fields, name) {
        Err(e) => Err(e),
        Ok(None) => Ok(None),
        Ok(Some(t)) => match EventId::parse(t) {
            Some(id) => Ok(Some(id)),
            None => Err(DecodeError::InvalidField),
        },
    }
}

/// Reads a field that holds a boolean and counts as `false` where absent.
fn flag(fields: &Vec<JsonField>, name: &str) -> (value: Result<bool, DecodeError>)
    ensures
        value == flag_of(fields_view(fields@), name@),
{
    match find_field(fields, name) {
        None => Ok(false),
        Some(JsonValue::Bool(b)) => Ok(*b),
        Some(_) => Err(DecodeError::InvalidField),
    }
}

/// Reads the field `target`.
fn target(fields: &Vec<JsonField>) -> (reference: Result<RoomReference, DecodeError>)
    ensures
        match reference {
            Ok(r) => target_of(fields_view(fields@)) == Ok::<RoomReferenceView, DecodeError>(r@),
            Err(e) => target_of(fields_view(fields@)) == Err::<RoomReferenceView, DecodeError>(e),
        },
{
    match required_text(fields, "target") {
        Err(e) => Err(e),
        Ok(t) => match RoomReference::parse(t) {
            Some(r) => Ok(r),
            None => Err(DecodeError::InvalidField),
        },
    }
}

/// Reads the fields of a `send_message` request.
fn decode_send_message(fields: &Vec<JsonField>) -> (command: Result<Command, DecodeError>)
    ensures
        decoded_view(command) == send_message_of(fields_view(fields@)),
{
    if !has_only_known_keys(fields, true) {
        return Err(DecodeError::UnknownField);
    }
    let target = match target(fields) {
        Ok(r) => r,
        Err(e) => {
            return Err(e);
        },
    };
    let content = match required_text(fields, "content") {
        Ok(t) => t,
        Err(e) => {
            return Err(e);
        },
    };
    let html_content = match optional_text(fields, "html_content") {
        Ok(t) => t,
        Err(e) => {
            return Err(e);
        },
    };
    let reply_to = match optional_event_id(fields, "reply_to") {
        Ok(id) => id,
        Err(e) => {
            return Err(e);
        },
    };
    let replaces = match optional_event_id(fields, "replaces") {
        Ok(id) => id,
        Err(e) => {
            return Err(e);
        },
    };
    let return_id = match flag(fields, "return_id") {
        Ok(b) => b,
        Err(e) => {
            return Err(e);
        },
    };
    Ok(Command::SendMessage { target, content, html_content, reply_to, replaces, return_id })
}

/// Reads the fields of a `delete_user_messages` request.
fn decode_delete_user_messages(fields: &Vec<JsonField>) -> (command: Result<
    Command,
    DecodeError,
>)
    ensures
        decoded_view(command) == delete_user_messages_of(fields_view(fields@)),
{
    if !has_only_known_keys(fields, false) {
        return Err(DecodeError::UnknownField);
    }
    let target = match target(fields) {
        Ok(r) => r,
        Err(e) => {
            return Err(e);
        },
    };
    let user = match required_text(fields, "user") {
        Ok(t) => t,
        Err(e) => {
            return Err(e);
        },
    };
    match UserId::parse(user) {
        Some(user) => Ok(Command::DeleteUserMessages { target, user }),
        None => Err(DecodeError::InvalidField),
    }
}

/// Reads the fields of a request as a command.
pub fn decode_fields(fields: &Vec<JsonField>) -> (command: Result<Command, DecodeError>)
    ensures
        decoded_view(command) == command_of_fields(fields_view(fields@)),
        command matches Ok(c) ==> c@.wf(),
{
    let command = match find_field(fields, "cmd") {
        Some(JsonValue::Text(tag)) => {
            if text_is(tag, "send_message") {
                decode_send_message(fields)
            } else if text_is(tag, "delete_user_messages") {
                decode_delete_user_messages(fields)
            } else {
                Err(DecodeError::UnknownCommand)
            }
        },
        _ => Err(DecodeError::MissingCommand),
    };
    proof {
        lemma_decoded_command_is_well_formed(fields_view(fields@));
    }
    command
}

/// Reads a payload as a command.
pub fn decode_command(payload: &[u8]) -> (command: Result<Command, DecodeError>)
    ensures
        decoded_view(command) == command_of_payload(payload@),
        command matches Ok(c) ==> c@.wf(),
{
    let text = match utf8_text(payload) {
        Some(t) => t,
        None => {
            return Err(DecodeError::InvalidUtf8);
        },
    };
    proof {
        encode_utf8_decode_utf8(text@);
    }
    match parse_object(text) {
        None => Err(DecodeError::InvalidJson),
        Some(fields) => decode_fields(&fields),
    }
}

/// A command that was read from a request holds only identifiers of the
/// kinds that its fields ask for.
pub proof fn lemma_decoded_command_is_well_formed(fields: Seq<JsonFieldView>)
    ensures
        command_of_fields(fields) matches Ok(c) ==> c.wf(),
{
}

/// The field `name` with the text `text` as its value.
pub open spec fn text_field(name: Seq<char>, text: Seq<char>) -> JsonFieldView {
    JsonFieldView { name, value: JsonValueView::Text(text) }
}

/// `fields`, and after them the field `name` where `text` holds one.
pub open spec fn with_optional_text(
    fields: Seq<JsonFieldView>,
    name: Seq<char>,
    text: Option<Seq<char>>,
) -> Seq<JsonFieldView> {
    match text {
        Some(t) => fields.push(text_field(name, t)),
        None => fields,
    }
}

/// The fields of the request that spells `command`: the discriminator, then
/// the fields of the command in their order. An optional field without a
/// value is left out.
pub open spec fn command_fields(command: CommandView) -> Seq<JsonFieldView> {
    match command {
        CommandView::SendMessage { target, content, html_content, reply_to, replaces, return_id } => {
            let required = Seq::<JsonFieldView>::empty().push(
                text_field("cmd"@, "send_message"@),
            ).push(text_field("target"@, target.text())).push(text_field("content"@, content));
            let html = with_optional_text(required, "html_content"@, html_content);
            let reply = with_optional_text(html, "reply_to"@, reply_to);
            let edit = with_optional_text(reply, "replaces"@, replaces);
            edit.push(JsonFieldView { name: "return_id"@, value: JsonValueView::Bool(return_id) })
        },
        CommandView::DeleteUserMessages { target, user } => Seq::<JsonFieldView>::empty().push(
            text_field("cmd"@, "delete_user_messages"@),
        ).push(text_field("target"@, target.text())).push(text_field("user"@, user)),
    }
}

/// The payload of the request that spells `command`.
pub open spec fn command_payload(command: CommandView) -> Seq<u8> {
    encode_utf8(object_text(command_fields(command)))
}

/// Appends a field that holds a text.
fn push_text(fields: &mut Vec<JsonField>, name: &str, text: &str)
    ensures
        fields_view(final(fields)@) == fields_view(old(fields)@).push(text_field(name@, text@)),
{
    fields.push(JsonField { name: name.to_owned(), value: JsonValue::Text(text.to_owned()) });
    assert(fields_view(fields@) =~= fields_view(old(fields)@).push(text_field(name@, text@)));
}

/// Writes `command` as the fields of a request.
pub fn encode_fields(command: &Command) -> (fields: Vec<JsonField>)
    ensures
        fields_view(fields@) == command_fields(command@),
{
    let mut fields: Vec<JsonField> = Vec::new();
    assert(fields_view(fields@) =~= Seq::<JsonFieldView>::empty());
    match command {
        Command::SendMessage { target, content, html_content, reply_to, replaces, return_id } => {
            push_text(&mut fields, "cmd", "send_message");
            push_text(&mut fields, "target", target.as_str());
            push_text(&mut fields, "content", content.as_str());
            if let Some(html) = html_content {
                push_text(&mut fields, "html_content", html.as_str());
            }
            if let Some(id) = reply_to {
                push_text(&mut fields, "reply_to", id.as_str());
            }
            if let Some(id) = replaces {
                push_text(&mut fields, "replaces", id.as_str());
            }
            let ghost before = fields_view(fields@);
            fields.push(
                JsonField { name: "return_id".to_owned(), value: JsonValue::Bool(*return_id) },
            );
            assert(fields_view(fields@) =~= before.push(
                JsonFieldView { name: "return_id"@, value: JsonValueView::Bool(*return_id) },
            ));
        },
        Command::DeleteUserMessages { target, user } => {
            push_text(&mut fields, "cmd", "delete_user_messages");
            push_text(&mut fields, "target", target.as_str());
            push_text(&mut fields, "user", user.as_str());
        },
    }
    fields
}

/// Writes `command` as the payload of a request.
pub fn encode_command(command: &Command) -> (payload: Vec<u8>)
    ensures
        payload@ == command_payload(command@),
{
    let fields = encode_fields(command);
    proof {
        lemma_command_fields_are_writable(command@);
    }
    let text = write_object(&fields).unwrap();
    text.as_str().as_bytes_vec()
}

/// What is sent back after a message was sent, where the request asked for
/// it: the id of the new event.
#[derive(Debug, PartialEq, Eq)]
pub struct Response {
    pub id: EventId,
}

/// The fields of a response: the one field `id`.
pub open spec fn response_fields(id: Seq<char>) -> Seq<JsonFieldView> {
    Seq::<JsonFieldView>::empty().push(text_field("id"@, id))
}

/// The payload of the response that carries `id`.
pub open spec fn response_payload(id: Seq<char>) -> Seq<u8> {
    encode_utf8(object_text(response_fields(id)))
}

/// Writes a response as a payload.
pub fn encode_response(response: &Response) -> (payload: Vec<u8>)
    ensures
        payload@ == response_payload(response.id@),
{
    let mut fields: Vec<JsonField> = Vec::new();
    assert(fields_view(fields@) =~= Seq::<JsonFieldView>::empty());
    push_text(&mut fields, "id", response.id.as_str());
    let text = write_object(&fields).unwrap();
    text.as_str().as_bytes_vec()
}

/// No field of a command holds a value without a JSON text.
pub proof fn lemma_command_fields_are_writable(command: CommandView)
    ensures
        writable(command_fields(command)),
{
}

/// The value that a list gives to a name after one more field was appended.
pub proof fn lemma_field_value_after_push(fields: Seq<JsonFieldView>, last: JsonFieldView)
    ensures
        forall|name: Seq<char>| #[trigger]
            field_value(fields.push(last), name) == if last.name == name {
                Some(last.value)
            } else {
                field_value(fields, name)
            },
{
    assert(fields.push(last).drop_last() =~= fields);
}

/// Appending a known field keeps a list within the fields that a command
/// may have.
pub proof fn lemma_known_keys_after_push(fields: Seq<JsonFieldView>, last: JsonFieldView, send: bool)
    requires
        only_known_keys(fields, send),
        if send {
            send_message_key(last.name)
        } else {
            delete_user_messages_key(last.name)
        },
    ensures
        only_known_keys(fields.push(last), send),
{
}

/// The names of the fields differ from one another, and so do the names of
/// the commands.
proof fn lemma_names_are_distinct()
    ensures
        "cmd"@.len() == 3,
        "user"@.len() == 4,
        "target"@.len() == 6,
        "content"@.len() == 7,
        "reply_to"@.len() == 8,
        "replaces"@.len() == 8,
        "reply_to"@[4] == 'y',
        "replaces"@[4] == 'a',
        "return_id"@.len() == 9,
        "html_content"@.len() == 12,
        "send_message"@.len() == 12,
        "delete_user_messages"@.len() == 20,
{
    reveal_strlit("cmd");
    reveal_strlit("user");
    reveal_strlit("target");
    reveal_strlit("content");
    reveal_strlit("reply_to");
    reveal_strlit("replaces");
    reveal_strlit("return_id");
    reveal_strlit("html_content");
    reveal_strlit("send_message");
    reveal_strlit("delete_user_messages");
}

/// Reading what was written gives the command again: for every command,
/// whichever of its optional fields are present,
/// `command_of_fields(command_fields(c)) == Ok(c)`.
pub proof fn lemma_command_roundtrip(command: CommandView)
    requires
        command.wf(),
    ensures
        command_of_fields(command_fields(command)) == Ok::<CommandView, DecodeError>(command),
{
    lemma_names_are_distinct();
    crate::ident::lemma_room_reference_roundtrip(command.target());
    let none = Seq::<JsonFieldView>::empty();
    match command {
        CommandView::SendMessage { target, content, html_content, reply_to, replaces, return_id } => {
            let f0 = text_field("cmd"@, "send_message"@);
            let f1 = text_field("target"@, target.text());
            let f2 = text_field("content"@, content);
            let s1 = none.push(f0);
            let s2 = s1.push(f1);
            let s3 = s2.push(f2);
            let s4 = with_optional_text(s3, "html_content"@, html_content);
            let s5 = with_optional_text(s4, "reply_to"@, reply_to);
            let s6 = with_optional_text(s5, "replaces"@, replaces);
            let f7 = JsonFieldView { name: "return_id"@, value: JsonValueView::Bool(return_id) };
            let s7 = s6.push(f7);
            assert(s7 == command_fields(command));
            lemma_field_value_after_push(none, f0);
            lemma_field_value_after_push(s1, f1);
            lemma_field_value_after_push(s2, f2);
            lemma_known_keys_after_push(none, f0, true);
            lemma_known_keys_after_push(s1, f1, true);
            lemma_known_keys_after_push(s2, f2, true);
            if html_content is Some {
                let f = text_field("html_content"@, html_content->Some_0);
                lemma_field_value_after_push(s3, f);
                lemma_known_keys_after_push(s3, f, true);
            }
            if reply_to is Some {
                let f = text_field("reply_to"@, reply_to->Some_0);
                lemma_field_value_after_push(s4, f);
                lemma_known_keys_after_push(s4, f, true);
            }
            if replaces is Some {
                let f = text_field("replaces"@, replaces->Some_0);
                lemma_field_value_after_push(s5, f);
                lemma_known_keys_after_push(s5, f, true);
            }
            lemma_field_value_after_push(s6, f7);
            lemma_known_keys_after_push(s6, f7, true);
            assert(field_value(s7, "cmd"@) == Some(JsonValueView::Text("send_message"@)));
            assert(target_of(s7) == Ok::<RoomReferenceView, DecodeError>(target));
            assert(text_of(s7, "content"@) == Ok::<Seq<char>, DecodeError>(content));
            assert(optional_text_of(s7, "html_content"@) == Ok::<Option<Seq<char>>, DecodeError>(
                html_content,
            ));
            assert(optional_event_id_of(s7, "reply_to"@) == Ok::<Option<Seq<char>>, DecodeError>(
                reply_to,
            ));
            assert(optional_event_id_of(s7, "replaces"@) == Ok::<Option<Seq<char>>, DecodeError>(
                replaces,
            ));
            assert(flag_of(s7, "return_id"@) == Ok::<bool, DecodeError>(return_id));
        },
        CommandView::DeleteUserMessages { target, user } => {
            let f0 = text_field("cmd"@, "delete_user_messages"@);
            let f1 = text_field("target"@, target.text());
            let f2 = text_field("user"@, user);
            let s1 = none.push(f0);
            let s2 = s1.push(f1);
            let s3 = s2.push(f2);
            lemma_field_value_after_push(none, f0);
            lemma_field_value_after_push(s1, f1);
            lemma_field_value_after_push(s2, f2);
            lemma_known_keys_after_push(none, f0, false);
            lemma_known_keys_after_push(s1, f1, false);
            lemma_known_keys_after_push(s2, f2, false);
            assert(field_value(s3, "cmd"@) == Some(JsonValueView::Text("delete_user_messages"@)));
            assert(target_of(s3) == Ok::<RoomReferenceView, DecodeError>(target));
            assert(user_of(s3) == Ok::<Seq<char>, DecodeError>(user));
        },
    }
}

/// Lists that give every name the same value hold the same names.
proof fn lemma_same_lookups_same_keys(a: Seq<JsonFieldView>, b: Seq<JsonFieldView>, send: bool)
    requires
        same_lookups(a, b),
        only_known_keys(b, send),
    ensures
        only_known_keys(a, send),
{
    assert forall|i: int| 0 <= i < a.len() implies if send {
        send_message_key(#[trigger] a[i].name)
    } else {
        delete_user_messages_key(#[trigger] a[i].name)
    } by {
        lemma_field_has_value(a, i);
        assert(field_value(a, a[i].name) == field_value(b, a[i].name));
        lemma_value_has_field(b, a[i].name);
    }
}

/// What a list of fields spells depends only on the value that it gives to
/// each name, not on the order of its fields.
pub proof fn lemma_command_depends_on_lookups(a: Seq<JsonFieldView>, b: Seq<JsonFieldView>)
    requires
        same_lookups(a, b),
    ensures
        command_of_fields(a) == command_of_fields(b),
{
    assert(same_lookups(b, a));
    assert(field_value(a, "cmd"@) == field_value(b, "cmd"@));
    assert(field_value(a, "target"@) == field_value(b, "target"@));
    assert(field_value(a, "content"@) == field_value(b, "content"@));
    assert(field_value(a, "html_content"@) == field_value(b, "html_content"@));
    assert(field_value(a, "reply_to"@) == field_value(b, "reply_to"@));
    assert(field_value(a, "replaces"@) == field_value(b, "replaces"@));
    assert(field_value(a, "return_id"@) == field_value(b, "return_id"@));
    assert(field_value(a, "user"@) == field_value(b, "user"@));
    assert(only_known_keys(a, true) == only_known_keys(b, true)) by {
        if only_known_keys(a, true) {
            lemma_same_lookups_same_keys(b, a, true);
        }
        if only_known_keys(b, true) {
            lemma_same_lookups_same_keys(a, b, true);
        }
    }
    assert(only_known_keys(a, false) == only_known_keys(b, false)) by {
        if only_known_keys(a, false) {
            lemma_same_lookups_same_keys(b, a, false);
        }
        if only_known_keys(b, false) {
            lemma_same_lookups_same_keys(a, b, false);
        }
    }
}

/// What decoding makes of an encoded command rests on the JSON reader
/// alone: the payload is UTF-8, and it is read as the command that the
/// fields spell which the reader finds in the text that was written.
pub proof fn lemma_decoding_an_encoded_command(command: CommandView)
    ensures
        command_of_payload(command_payload(command)) == match json_object_fields(
            object_text(command_fields(command)),
        ) {
            None => Err::<CommandView, DecodeError>(DecodeError::InvalidJson),
            Some(read) => command_of_fields(read),
        },
{
    let text = object_text(command_fields(command));
    encode_utf8_valid_utf8(text);
    encode_utf8_decode_utf8(text);
}

/// Decoding an encoded command gives the command again,
/// `decode(encode(c)) == c`, for every command and whichever of its
/// optional fields are present, provided that the JSON reader finds in the
/// written text the fields that were written, in whatever order.
pub proof fn lemma_payload_roundtrip(command: CommandView)
    requires
        command.wf(),
    ensures
        json_object_fields(object_text(command_fields(command))) matches Some(read)
            && same_lookups(read, command_fields(command)) ==> command_of_payload(
            command_payload(command),
        ) == Ok::<CommandView, DecodeError>(command),
{
    lemma_decoding_an_encoded_command(command);
    lemma_command_roundtrip(command);
    let read = json_object_fields(object_text(command_fields(command)));
    if read is Some && same_lookups(read->Some_0, command_fields(command)) {
        lemma_command_depends_on_lookups(read->Some_0, command_fields(command));
    }
}

} // verus!
