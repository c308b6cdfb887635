//! The server's components, leaves first: text primitives, the numeric
//! replies, rosters of nicknames, channels, client sessions, commands and
//! their dispatch, the server's state, and what is proved of the whole.

pub mod text;
pub mod response;
pub mod roster;
pub mod channel;
pub mod client;
pub mod command;
pub mod ircd;
pub mod laws;
