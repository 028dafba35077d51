//! Bridge between a lighting console's cue protocol and live viewers.
//!
//! Datagrams from the console are decoded into messages, each message is
//! interpreted against the single current cue state, recorded in a bounded
//! history and announced to every subscribed viewer.

pub mod clock;
pub mod decode;
pub mod history;
pub mod hub;
pub mod label;
pub mod log;
pub mod notify;
pub mod osc;
pub mod service;
pub mod state;
pub mod text;
pub mod viewer;
