//! Remote-control bridge between an OSC peer and a digital audio workstation.
//!
//! The crate holds the decisions of the bridge: how a received packet is
//! expanded and routed, how each request is read, what reply is built from
//! what the host answered, and when a note is switched on and off. Sockets,
//! threads and the host's function pointers belong to the embedding program,
//! which hands plain values to the functions here and performs what they
//! return.

pub mod extension;
pub mod numeral;
pub mod osc;
pub mod reaper;
