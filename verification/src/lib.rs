//! A WebRTC agent: its start, its handshake with the signalling server, its session with a peer
//! and the stream that an application holds. Nothing here performs input or output: every function
//! takes what has happened and says what is to be done about it.

pub mod command;
pub mod error;
pub mod handshake;
pub mod json;
pub mod launch;
pub mod lists;
pub mod message;
pub mod run;
pub mod stream;
pub mod text;
pub mod utils;
pub mod webrtc;
