//! Forwarding of row-change events from database triggers to a remote
//! event processor: the connection state machine, the construction of
//! change events, and the two-phase (primary and follow-up) call protocol.

pub mod row;
pub mod event;
pub mod endpoint;
pub mod forward;
