//! Control-plane core of a remote-desktop streaming pair: a length-prefixed
//! frame codec, the message schema with its byte-level encoding, the
//! server-side session state machine over a capture/encode adapter, and the
//! client-side request broker and session mirror.

pub mod adapter;
pub mod broker;
pub mod codec;
pub mod config;
pub mod debug_area;
pub mod input;
pub mod keymap;
pub mod mirror;
pub mod schema;
pub mod session;
pub mod wire;
