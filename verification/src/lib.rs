//! One-shot file transfer between two peers, set off by a global key
//! combination: the wire format, the two sides of a transfer, the bounded
//! queue of inbound connections and the polling coordinators that drive them.

pub mod wire;
pub mod text;
pub mod path;
pub mod frame;
pub mod outcome;
pub mod receive;
pub mod send;
pub mod queue;
pub mod hotkey;
pub mod setup;
pub mod coordinator;
