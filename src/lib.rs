//! A typed client for a remote, turn-based card game session driven over a line-based
//! connection: wire frames, line routing and liveness, request kinds, and the screen graph
//! whose transitions consume the screen they leave.

pub mod catalog;
pub mod frame;
pub mod link;
pub mod protocol;
pub mod screens;
pub mod texts;
pub mod translations;
