//! Runs short snippets from a chat inside a sandbox and reports what they
//! printed.
//!
//! The library decides and the caller acts. `bot` holds the dispatcher,
//! `session` the conversation in which it names each action of a request,
//! `shell` the command line of a sandboxed shell, `workspace` and `template`
//! the files that a snippet is staged in, and `output` the message that a
//! finished request is reported with; `bound` proves that message bounded.
//! `command` and `chat` hold the decisions of the chat front ends,
//! `pastebin` those around the paste service, and `markdown` and `text` the
//! vocabulary underneath.

pub mod bot;
pub mod bound;
pub mod chat;
pub mod command;
pub mod error;
pub mod markdown;
pub mod mode;
pub mod options;
pub mod output;
pub mod pastebin;
pub mod session;
pub mod shell;
pub mod template;
pub mod text;
pub mod workspace;
