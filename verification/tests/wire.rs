use renardo_ext::osc::message::{Message, OscArg, Packet};
use renardo_ext::osc::router::handle_osc_packet;
use renardo_ext::reaper::command::Command;
use renardo_ext::reaper::project::{plan_add_track, AddTrackRequest};
use renardo_ext::reaper::track::scan::{scan_response, Probe, TrackScan};
use renardo_ext::reaper::track::track_volume_response;
use rosc::{OscBundle, OscMessage, OscPacket, OscTime, OscType};

fn arg_to(arg: OscArg) -> OscType {
    match arg {
        OscArg::Int(i) => OscType::Int(i),
        OscArg::Float(bits) => OscType::Float(f32::from_bits(bits)),
        OscArg::Double(bits) => OscType::Double(f64::from_bits(bits)),
        OscArg::String(s) => OscType::String(s),
        OscArg::Bool(b) => OscType::Bool(b),
        OscArg::Blob(bytes) => OscType::Blob(bytes),
        OscArg::Other => OscType::Nil,
    }
}

fn arg_from(arg: OscType) -> OscArg {
    match arg {
        OscType::Int(i) => OscArg::Int(i),
        OscType::Float(f) => OscArg::Float(f.to_bits()),
        OscType::Double(d) => OscArg::Double(d.to_bits()),
        OscType::String(s) => OscArg::String(s),
        OscType::Bool(b) => OscArg::Bool(b),
        OscType::Blob(bytes) => OscArg::Blob(bytes),
        _ => OscArg::Other,
    }
}

fn packet_to(packet: Packet) -> OscPacket {
    match packet {
        Packet::Message(m) => OscPacket::Message(OscMessage {
            addr: m.addr,
            args: m.args.into_iter().map(arg_to).collect(),
        }),
        Packet::Bundle(content) => OscPacket::Bundle(OscBundle {
            timetag: OscTime::from((0, 1)),
            content: content.into_iter().map(packet_to).collect(),
        }),
    }
}

fn packet_from(packet: OscPacket) -> Packet {
    match packet {
        OscPacket::Message(m) => Packet::Message(Message {
            addr: m.addr,
            args: m.args.into_iter().map(arg_from).collect(),
        }),
        OscPacket::Bundle(b) => Packet::Bundle(b.content.into_iter().map(packet_from).collect()),
    }
}

fn over_the_wire(packet: Packet) -> Packet {
    let bytes = rosc::encoder::encode(&packet_to(packet)).unwrap();
    let (rest, decoded) = rosc::decoder::decode_udp(&bytes).unwrap();
    assert!(rest.is_empty());
    packet_from(decoded)
}

fn message(addr: &str, args: Vec<OscArg>) -> Message {
    Message { addr: addr.to_string(), args }
}

#[test]
fn message_of_every_kind_survives_the_wire() {
    let m = message(
        "/track/volume/set",
        vec![
            OscArg::Int(-7),
            OscArg::Float(0.25f32.to_bits()),
            OscArg::Double((-1.5f64).to_bits()),
            OscArg::String("grüße".to_string()),
            OscArg::String(String::new()),
            OscArg::Bool(true),
            OscArg::Bool(false),
            OscArg::Blob(vec![]),
            OscArg::Blob(vec![1, 2, 3, 4, 5]),
        ],
    );
    assert_eq!(over_the_wire(Packet::Message(m.clone())), Packet::Message(m));
}

#[test]
fn message_without_arguments_survives_the_wire() {
    let m = message("/project/name/get", vec![]);
    assert_eq!(over_the_wire(Packet::Message(m.clone())), Packet::Message(m));
}

#[test]
fn replies_survive_the_wire() {
    let volume = track_volume_response(0, Some(1.0f32.to_bits())).unwrap();
    assert_eq!(over_the_wire(Packet::Message(volume.clone())), Packet::Message(volume));
    let scan = scan_response(
        1,
        Some(&TrackScan {
            name: Probe::Got("lead".to_string()),
            properties: None,
            color: Some(3),
            fx: None,
            sends: None,
        }),
    );
    assert_eq!(over_the_wire(Packet::Message(scan.clone())), Packet::Message(scan));
    let plan = plan_add_track(
        &AddTrackRequest {
            position: -1,
            name: String::new(),
            input: -1,
            record_armed: false,
            record_mode: 2,
        },
        4,
    );
    assert_eq!(over_the_wire(Packet::Message(plan.reply.clone())), Packet::Message(plan.reply));
}

#[test]
fn nested_bundle_from_the_wire_is_dispatched_in_order() {
    let m1 = message("/track/name/get", vec![OscArg::Int(1)]);
    let m2 = message("/track/volume/get", vec![OscArg::Int(2)]);
    let m3 = message("/track/pan/get", vec![OscArg::Int(3)]);
    let sent = Packet::Bundle(vec![
        Packet::Bundle(vec![Packet::Message(m1), Packet::Message(m2)]),
        Packet::Message(m3),
    ]);
    let received = over_the_wire(sent);
    let commands: Vec<Command> =
        handle_osc_packet(&received).into_iter().map(|d| d.command).collect();
    assert_eq!(
        commands,
        vec![
            Command::GetTrackName { index: 1 },
            Command::GetTrackVolume { index: 2 },
            Command::GetTrackPan { index: 3 },
        ]
    );
}
