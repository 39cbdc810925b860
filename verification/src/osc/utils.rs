//! Where replies go.

use crate::osc::message::{Message, Packet};
use vstd::prelude::*;

verus! {

/// The port on which the bridge receives.
pub const SERVER_PORT: u16 = 9877;

/// The port to which every reply is sent, whatever port the request came
/// from.
pub const CLIENT_PORT: u16 = 9878;

/// The internet address of a peer.
#[derive(Clone, Copy, Debug, PartialEq, Eq, Structural)]
pub enum PeerIp {
    /// The four bytes of an IPv4 address.
    V4(u8, u8, u8, u8),
    /// An IPv6 address as one number.
    V6(u128),
}

/// A peer: its address and port.
#[derive(Clone, Copy, Debug, PartialEq, Eq, Structural)]
pub struct Peer {
    pub ip: PeerIp,
    pub port: u16,
}

/// A datagram to send: the packet, and the peer that it goes to.
#[derive(Debug, PartialEq, Eq)]
pub struct Outbound {
    pub to: Peer,
    pub packet: Packet,
}

/// Addresses a reply: it goes to the host that the request came from, on
/// [`CLIENT_PORT`], as a single message.
pub fn send_response(response: Message, sender: Peer) -> (outbound: Outbound)
    ensures
        outbound.to == (Peer { ip: sender.ip, port: CLIENT_PORT }),
        outbound.packet == Packet::Message(response),
{
    Outbound { to: Peer { ip: sender.ip, port: CLIENT_PORT }, packet: Packet::Message(response) }
}

} // verus!
