//! Control plane of a chat-relay bot.
//!
//! Trusted local processes instruct a long-lived chat session over a local
//! stream: send a message, reply, edit, or retract the recent messages of one
//! author. This library holds what is decided on the way; reading and
//! writing the stream and talking to the chat session are left to the
//! program around it.
//!
//! - `frame`: the length-prefixed framing of the stream.
//! - `ident`: identifiers of rooms, aliases, events and users.
//! - `json`: JSON objects as lists of fields.
//! - `command`: the commands and their wire form.
//! - `event`: events of a room's history.
//! - `message`: the body of an outgoing message.
//! - `purge`: the sweep that retracts the messages of one author.
//! - `dispatch`: the steps in which one command is carried out.
//! - `run`: whole runs of the dispatcher, and the laws that hold of them.
//! - `endpoint`: the local endpoint of the channel.

pub mod command;
pub mod dispatch;
pub mod endpoint;
pub mod event;
pub mod frame;
pub mod ident;
pub mod json;
pub mod message;
pub mod purge;
pub mod run;
