//! Command routing and reply formatting for a small chat bot.
//!
//! The library decides what the bot answers; it performs no I/O. A caller
//! hands it the text of an incoming message (and, for the now-playing
//! command, what the media player reported) and sends whatever comes back.

pub mod catalog;
pub mod commands;
pub mod discord;
pub mod message;
pub mod player;
pub mod router;
pub mod text;
