//! Core logic of a voice-channel music bot: command parsing, per-guild
//! session and queue bookkeeping, reply construction, and playlist
//! metadata decoding. Everything here is verified; the network and audio
//! plumbing lives outside this crate and only hands plain values in.

pub mod command;
pub mod embed;
pub mod handlers;
pub mod messages;
pub mod playlist;
pub mod session;
pub mod text;
