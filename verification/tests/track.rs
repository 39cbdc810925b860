use renardo_ext::osc::message::{Message, Number, OscArg};
use renardo_ext::reaper::command::Command;
use renardo_ext::reaper::track::{
    handle_get_track_name, handle_get_track_pan, handle_get_track_volume, handle_set_track_name,
    handle_set_track_pan, handle_set_track_volume, set_track_name_response,
    set_track_pan_response, set_track_volume_response, track_name_response, track_pan_response,
    track_volume_response,
};

fn message(addr: &str, args: Vec<OscArg>) -> Message {
    Message { addr: addr.to_string(), args }
}

fn s(text: &str) -> OscArg {
    OscArg::String(text.to_string())
}

#[test]
fn get_track_volume_of_a_track_at_unity_replies_one() {
    let c = handle_get_track_volume(&message("/track/volume/get", vec![OscArg::Int(0)]));
    assert_eq!(c, Command::GetTrackVolume { index: 0 });
    let stored: f64 = 1.0;
    let reply = track_volume_response(0, Some((stored as f32).to_bits())).unwrap();
    assert_eq!(reply.addr, "/track/volume/get/response");
    assert_eq!(reply.args, vec![OscArg::Int(0), OscArg::Float(0x3f80_0000)]);
    match reply.args[1] {
        OscArg::Float(bits) => assert_eq!(f32::from_bits(bits), 1.0),
        _ => panic!("no float"),
    }
}

#[test]
fn getters_need_an_integer_index() {
    for args in [vec![], vec![s("0")], vec![OscArg::Float(0)], vec![OscArg::Bool(true)]] {
        assert_eq!(handle_get_track_name(&message("/track/name/get", args.clone())), Command::Ignore);
        assert_eq!(
            handle_get_track_volume(&message("/track/volume/get", args.clone())),
            Command::Ignore
        );
        assert_eq!(handle_get_track_pan(&message("/track/pan/get", args)), Command::Ignore);
    }
    assert_eq!(
        handle_get_track_name(&message("/track/name/get", vec![OscArg::Int(-3)])),
        Command::GetTrackName { index: -3 }
    );
    assert_eq!(
        handle_get_track_pan(&message("/track/pan/get", vec![OscArg::Int(8), s("x")])),
        Command::GetTrackPan { index: 8 }
    );
}

#[test]
fn missing_answer_gives_no_reply() {
    assert_eq!(track_name_response(1, None), None);
    assert_eq!(track_volume_response(1, None), None);
    assert_eq!(track_pan_response(1, None), None);
    assert_eq!(set_track_name_response(1, "x", false), None);
    assert_eq!(set_track_volume_response(1, None), None);
    assert_eq!(set_track_pan_response(1, None), None);
}

#[test]
fn track_name_replies() {
    assert_eq!(
        track_name_response(2, Some("drums")),
        Some(message("/track/name/get/response", vec![OscArg::Int(2), s("drums")]))
    );
    assert_eq!(
        set_track_name_response(2, "drums", true),
        Some(message("/track/name/set/response", vec![OscArg::Int(2), s("drums"), s("success")]))
    );
}

#[test]
fn set_track_name_needs_index_and_text() {
    assert_eq!(
        handle_set_track_name(&message("/track/name/set", vec![OscArg::Int(2), s("drums")])),
        Command::SetTrackName { index: 2, name: "drums".to_string() }
    );
    assert_eq!(
        handle_set_track_name(&message("/track/name/set", vec![OscArg::Int(2)])),
        Command::Ignore
    );
    assert_eq!(
        handle_set_track_name(&message("/track/name/set", vec![s("drums"), OscArg::Int(2)])),
        Command::Ignore
    );
    assert_eq!(
        handle_set_track_name(&message("/track/name/set", vec![OscArg::Int(2), OscArg::Int(3)])),
        Command::Ignore
    );
}

#[test]
fn set_volume_and_pan_take_a_float_a_double_or_an_integer() {
    let half = 0.5f32.to_bits();
    let quarter = 0.25f64.to_bits();
    assert_eq!(
        handle_set_track_volume(&message(
            "/track/volume/set",
            vec![OscArg::Int(1), OscArg::Float(half)]
        )),
        Command::SetTrackVolume { index: 1, value: Number::Float(half) }
    );
    assert_eq!(
        handle_set_track_volume(&message(
            "/track/volume/set",
            vec![OscArg::Int(1), OscArg::Double(quarter)]
        )),
        Command::SetTrackVolume { index: 1, value: Number::Double(quarter) }
    );
    assert_eq!(
        handle_set_track_pan(&message("/track/pan/set", vec![OscArg::Int(1), OscArg::Int(-1)])),
        Command::SetTrackPan { index: 1, value: Number::Int(-1) }
    );
    assert_eq!(
        handle_set_track_pan(&message("/track/pan/set", vec![OscArg::Int(1), s("left")])),
        Command::Ignore
    );
    assert_eq!(
        handle_set_track_volume(&message("/track/volume/set", vec![OscArg::Int(1)])),
        Command::Ignore
    );
    assert_eq!(
        handle_set_track_volume(&message(
            "/track/volume/set",
            vec![OscArg::Float(half), OscArg::Float(half)]
        )),
        Command::Ignore
    );
}

#[test]
fn value_replies_carry_their_own_addresses() {
    let bits = (-0.5f32).to_bits();
    assert_eq!(
        track_pan_response(3, Some(bits)),
        Some(message("/track/pan/get/response", vec![OscArg::Int(3), OscArg::Float(bits)]))
    );
    assert_eq!(
        set_track_volume_response(3, Some(bits)),
        Some(message(
            "/track/volume/set/response",
            vec![OscArg::Int(3), OscArg::Float(bits), s("success")]
        ))
    );
    assert_eq!(
        set_track_pan_response(3, Some(bits)),
        Some(message(
            "/track/pan/set/response",
            vec![OscArg::Int(3), OscArg::Float(bits), s("success")]
        ))
    );
}
