//! Chat command dispatch and admission control for a Twitch chat bot.
//!
//! The crate decides, for every inbound chat message, whether it names a
//! command, whether the sender and the command are within their rate limits,
//! what the command replies, and which diagnostic (if any) the sender is owed.
//! It performs no I/O: every outbound message is handed back to the caller.

pub mod time;
pub mod spam;
pub mod spam_laws;
pub mod text;
pub mod parse;
pub mod message;
pub mod random;
pub mod commands;
pub mod command;
pub mod dispatch;
pub mod api;
pub mod spamcheck;
pub mod stream;
