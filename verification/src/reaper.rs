//! What the bridge asks of the host and what it answers the peer.

pub mod api;
pub mod command;
pub mod fx;
pub mod midi;
pub mod project;
pub mod track;
