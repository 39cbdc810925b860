use renardo_ext::osc::message::{Message, OscArg, Packet};
use renardo_ext::osc::utils::{send_response, Peer, PeerIp, CLIENT_PORT, SERVER_PORT};

#[test]
fn ports_are_fixed() {
    assert_eq!(SERVER_PORT, 9877);
    assert_eq!(CLIENT_PORT, 9878);
}

#[test]
fn reply_goes_to_the_sender_on_the_client_port() {
    let reply = Message { addr: "/note/response".to_string(), args: vec![OscArg::Int(1)] };
    let sender = Peer { ip: PeerIp::V4(127, 0, 0, 1), port: 51234 };
    let out = send_response(reply.clone(), sender);
    assert_eq!(out.to, Peer { ip: PeerIp::V4(127, 0, 0, 1), port: 9878 });
    assert_eq!(out.packet, Packet::Message(reply));
}

#[test]
fn reply_to_an_ipv6_sender() {
    let reply = Message { addr: "/x".to_string(), args: vec![] };
    let out = send_response(reply, Peer { ip: PeerIp::V6(1), port: 9878 });
    assert_eq!(out.to, Peer { ip: PeerIp::V6(1), port: 9878 });
}
