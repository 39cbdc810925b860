//! Requests about one track, and the replies to them.

use crate::osc::message::{text, ArgView, Message, MessageView, OscArg};
use crate::reaper::command::{Command, CommandView};
use vstd::prelude::*;

pub mod scan;

verus! {

/// The reply that reports the name of the track at `index`.
pub open spec fn track_name_reply(index: i32, name: Seq<char>) -> MessageView {
    MessageView {
        addr: "/track/name/get/response"@,
        args: seq![ArgView::Int(index), ArgView::String(name)],
    }
}

/// The reply that confirms the new name of the track at `index`.
pub open spec fn set_track_name_reply(index: i32, name: Seq<char>) -> MessageView {
    MessageView {
        addr: "/track/name/set/response"@,
        args: seq![ArgView::Int(index), ArgView::String(name), ArgView::String("success"@)],
    }
}

/// The reply under `addr` that reports a float of the track at `index`.
pub open spec fn value_reply(addr: Seq<char>, index: i32, bits: u32) -> MessageView {
    MessageView { addr, args: seq![ArgView::Int(index), ArgView::Float(bits)] }
}

/// The reply under `addr` that confirms a float set on the track at
/// `index`.
pub open spec fn set_value_reply(addr: Seq<char>, index: i32, bits: u32) -> MessageView {
    MessageView {
        addr,
        args: seq![ArgView::Int(index), ArgView::Float(bits), ArgView::String("success"@)],
    }
}

fn value_message(addr: &str, index: i32, bits: u32) -> (reply: Message)
    ensures
        reply@ == value_reply(addr@, index, bits),
{
    let reply = Message { addr: addr.to_owned(), args: vec![OscArg::Int(index), OscArg::Float(bits)] };
    assert(reply@.args =~= value_reply(addr@, index, bits).args);
    reply
}

fn set_value_message(addr: &str, index: i32, bits: u32) -> (reply: Message)
    ensures
        reply@ == set_value_reply(addr@, index, bits),
{
    let reply = Message {
        addr: addr.to_owned(),
        args: vec![OscArg::Int(index), OscArg::Float(bits), text("success")],
    };
    assert(reply@.args =~= set_value_reply(addr@, index, bits).args);
    reply
}

/// What a request for the name of a track asks for: the track is the
/// integer at place 0. Without one the message asks for nothing.
pub open spec fn get_track_name_command(msg: MessageView) -> CommandView {
    match msg.int_at(0) {
        Some(index) => CommandView::GetTrackName { index },
        None => CommandView::Ignore,
    }
}

/// Reads a request for the name of a track: see
/// [`get_track_name_command`].
pub fn handle_get_track_name(msg: &Message) -> (command: Command)
    ensures
        command@ == get_track_name_command(msg@),
{
    match msg.int_arg(0) {
        Some(index) => Command::GetTrackName { index },
        None => Command::Ignore,
    }
}

/// The reply to a request for the name of the track at `index`: the name
/// that the host gave, or no reply if it gave none.
pub fn track_name_response(index: i32, name: Option<&str>) -> (reply: Option<Message>)
    ensures
        match name {
            Some(given) => reply matches Some(message) && message@ == track_name_reply(
                index,
                given@,
            ),
            None => reply.is_none(),
        },
{
    match name {
        Some(given) => {
            let message = Message {
                addr: "/track/name/get/response".to_owned(),
                args: vec![OscArg::Int(index), text(given)],
            };
            assert(message@.args =~= track_name_reply(index, given@).args);
            Some(message)
        },
        None => None,
    }
}

/// What a request to rename a track asks for: the track is the integer at
/// place 0, the new name the text at place 1. Without both the message asks
/// for nothing.
pub open spec fn set_track_name_command(msg: MessageView) -> CommandView {
    match (msg.int_at(0), msg.text_at(1)) {
        (Some(index), Some(name)) => CommandView::SetTrackName { index, name },
        _ => CommandView::Ignore,
    }
}

/// Reads a request to rename a track: see [`set_track_name_command`].
pub fn handle_set_track_name(msg: &Message) -> (command: Command)
    ensures
        command@ == set_track_name_command(msg@),
{
    match (msg.int_arg(0), msg.text_arg(1)) {
        (Some(index), Some(name)) => Command::SetTrackName { index, name: name.clone() },
        _ => Command::Ignore,
    }
}

/// The reply to a request to rename the track at `index` to `name`: the
/// confirmation if the host took the name, else no reply.
pub fn set_track_name_response(index: i32, name: &str, applied: bool) -> (reply: Option<Message>)
    ensures
        if applied {
            reply matches Some(message) && message@ == set_track_name_reply(index, name@)
        } else {
            reply.is_none()
        },
{
    if applied {
        let message = Message {
            addr: "/track/name/set/response".to_owned(),
            args: vec![OscArg::Int(index), text(name), text("success")],
        };
        assert(message@.args =~= set_track_name_reply(index, name@).args);
        Some(message)
    } else {
        None
    }
}

/// What a request for the volume of a track asks for: the track is the
/// integer at place 0. Without one the message asks for nothing.
pub open spec fn get_track_volume_command(msg: MessageView) -> CommandView {
    match msg.int_at(0) {
        Some(index) => CommandView::GetTrackVolume { index },
        None => CommandView::Ignore,
    }
}

/// Reads a request for the volume of a track: see
/// [`get_track_volume_command`].
pub fn handle_get_track_volume(msg: &Message) -> (command: Command)
    ensures
        command@ == get_track_volume_command(msg@),
{
    match msg.int_arg(0) {
        Some(index) => Command::GetTrackVolume { index },
        None => Command::Ignore,
    }
}

/// The reply to a request for the volume of the track at `index`: the
/// volume that the host gave, as the bits of a 32-bit float, or no reply if
/// it gave none.
pub fn track_volume_response(index: i32, volume: Option<u32>) -> (reply: Option<Message>)
    ensures
        match volume {
            Some(bits) => reply matches Some(message) && message@ == value_reply(
                "/track/volume/get/response"@,
                index,
                bits,
            ),
            None => reply.is_none(),
        },
{
    match volume {
        Some(bits) => Some(value_message("/track/volume/get/response", index, bits)),
        None => None,
    }
}

/// What a request to set the volume of a track asks for: the track is the
/// integer at place 0, the volume the float, double or integer at place 1.
/// Without both the message asks for nothing.
pub open spec fn set_track_volume_command(msg: MessageView) -> CommandView {
    match (msg.int_at(0), msg.number_at(1)) {
        (Some(index), Some(value)) => CommandView::SetTrackVolume { index, value },
        _ => CommandView::Ignore,
    }
}

/// Reads a request to set the volume of a track: see
/// [`set_track_volume_command`].
pub fn handle_set_track_volume(msg: &Message) -> (command: Command)
    ensures
        command@ == set_track_volume_command(msg@),
{
    match (msg.int_arg(0), msg.number_arg(1)) {
        (Some(index), Some(value)) => Command::SetTrackVolume { index, value },
        _ => Command::Ignore,
    }
}

/// The reply to a request to set the volume of the track at `index`: the
/// confirmation with the volume that was set, as the bits of a 32-bit
/// float, or no reply if the host set none.
pub fn set_track_volume_response(index: i32, applied: Option<u32>) -> (reply: Option<Message>)
    ensures
        match applied {
            Some(bits) => reply matches Some(message) && message@ == set_value_reply(
                "/track/volume/set/response"@,
                index,
                bits,
            ),
            None => reply.is_none(),
        },
{
    match applied {
        Some(bits) => Some(set_value_message("/track/volume/set/response", index, bits)),
        None => None,
    }
}

/// What a request for the pan of a track asks for: the track is the
/// integer at place 0. Without one the message asks for nothing.
pub open spec fn get_track_pan_command(msg: MessageView) -> CommandView {
    match msg.int_at(0) {
        Some(index) => CommandView::GetTrackPan { index },
        None => CommandView::Ignore,
    }
}

/// Reads a request for the pan of a track: see [`get_track_pan_command`].
pub fn handle_get_track_pan(msg: &Message) -> (command: Command)
    ensures
        command@ == get_track_pan_command(msg@),
{
    match msg.int_arg(0) {
        Some(index) => Command::GetTrackPan { index },
        None => Command::Ignore,
    }
}

/// The reply to a request for the pan of the track at `index`: the pan that
/// the host gave, as the bits of a 32-bit float, or no reply if it gave
/// none.
pub fn track_pan_response(index: i32, pan: Option<u32>) -> (reply: Option<Message>)
    ensures
        match pan {
            Some(bits) => reply matches Some(message) && message@ == value_reply(
                "/track/pan/get/response"@,
                index,
                bits,
            ),
            None => reply.is_none(),
        },
{
    match pan {
        Some(bits) => Some(value_message("/track/pan/get/response", index, bits)),
        None => None,
    }
}

/// What a request to set the pan of a track asks for: the track is the
/// integer at place 0, the pan the float, double or integer at place 1.
/// Without both the message asks for nothing.
pub open spec fn set_track_pan_command(msg: MessageView) -> CommandView {
    match (msg.int_at(0), msg.number_at(1)) {
        (Some(index), Some(value)) => CommandView::SetTrackPan { index, value },
        _ => CommandView::Ignore,
    }
}

/// Reads a request to set the pan of a track: see
/// [`set_track_pan_command`].
pub fn handle_set_track_pan(msg: &Message) -> (command: Command)
    ensures
        command@ == set_track_pan_command(msg@),
{
    match (msg.int_arg(0), msg.number_arg(1)) {
        (Some(index), Some(value)) => Command::SetTrackPan { index, value },
        _ => Command::Ignore,
    }
}

/// The reply to a request to set the pan of the track at `index`: the
/// confirmation with the pan that was set, as the bits of a 32-bit float,
/// or no reply if the host set none.
pub fn set_track_pan_response(index: i32, applied: Option<u32>) -> (reply: Option<Message>)
    ensures
        match applied {
            Some(bits) => reply matches Some(message) && message@ == set_value_reply(
                "/track/pan/set/response"@,
                index,
                bits,
            ),
            None => reply.is_none(),
        },
{
    match applied {
        Some(bits) => Some(set_value_message("/track/pan/set/response", index, bits)),
        None => None,
    }
}

} // verus!
