//! Requests about the project, and the replies to them.

use crate::osc::message::{text, ArgView, Message, MessageView, OscArg};
use crate::reaper::command::{Command, CommandView};
use vstd::prelude::*;

verus! {

/// The host action that sets the input of the selected track to all MIDI
/// inputs.
pub const SET_MIDI_INPUT_ACTION: i32 = 40712;

/// A request to insert a track.
#[derive(Debug, PartialEq, Eq)]
pub struct AddTrackRequest {
    /// Where to insert; a negative number asks for the end of the list.
    pub position: i32,
    /// The name of the new track; empty to keep the host's.
    pub name: String,
    /// The MIDI input; a negative number asks for none.
    pub input: i32,
    pub record_armed: bool,
    pub record_mode: i32,
}

/// What a request to insert a track is, as a mathematical value.
pub struct AddTrackView {
    pub position: i32,
    pub name: Seq<char>,
    pub input: i32,
    pub record_armed: bool,
    pub record_mode: i32,
}

impl View for AddTrackRequest {
    type V = AddTrackView;

    open spec fn view(&self) -> AddTrackView {
        AddTrackView {
            position: self.position,
            name: self.name@,
            input: self.input,
            record_armed: self.record_armed,
            record_mode: self.record_mode,
        }
    }
}

/// The request that a message makes. Each place is optional; a place that
/// is missing, or holds a value of another kind, takes its default: the end
/// of the list, no name, no input, not armed, record mode 2.
pub open spec fn requested_track(msg: MessageView) -> AddTrackView {
    AddTrackView {
        position: match msg.int_at(0) {
            Some(position) => position,
            None => -1i32,
        },
        name: match msg.text_at(1) {
            Some(name) => name,
            None => Seq::empty(),
        },
        input: match msg.int_at(2) {
            Some(input) => input,
            None => -1i32,
        },
        record_armed: match msg.bool_at(3) {
            Some(armed) => armed,
            None => false,
        },
        record_mode: match msg.int_at(4) {
            Some(mode) => mode,
            None => 2,
        },
    }
}

/// Where the track is inserted in a list of `track_count` tracks: at the
/// end for a negative position, else at the position, but not past the end.
pub open spec fn insert_position(position: i32, track_count: i32) -> i32 {
    if position < 0 || position > track_count {
        track_count
    } else {
        position
    }
}

/// The number that the host stores for a requested MIDI input. A request
/// from 1 to 4095 names a channel of all MIDI devices, and is stored with
/// the MIDI flag 4096 and the device number 63 in the bits above the
/// channel; any other request is stored as it is.
pub open spec fn midi_input_value(input: i32) -> i32 {
    if 0 < input < 4096 {
        (4096 + input + 63 * 32) as i32
    } else {
        input
    }
}

/// One thing to set on the new track.
#[derive(Debug, PartialEq, Eq)]
pub enum TrackSetting {
    Name(String),
    /// The record input, as the host stores it.
    RecInput(i32),
    RecArm(bool),
    RecMode(i32),
}

/// What a setting is, as a mathematical value.
pub enum TrackSettingView {
    Name(Seq<char>),
    RecInput(i32),
    RecArm(bool),
    RecMode(i32),
}

impl View for TrackSetting {
    type V = TrackSettingView;

    open spec fn view(&self) -> TrackSettingView {
        match *self {
            TrackSetting::Name(name) => TrackSettingView::Name(name@),
            TrackSetting::RecInput(value) => TrackSettingView::RecInput(value),
            TrackSetting::RecArm(armed) => TrackSettingView::RecArm(armed),
            TrackSetting::RecMode(mode) => TrackSettingView::RecMode(mode),
        }
    }
}

/// The views of a sequence of settings, in order.
pub open spec fn setting_views(settings: Seq<TrackSetting>) -> Seq<TrackSettingView> {
    settings.map_values(|s: TrackSetting| s@)
}

/// What is set on the new track, in order: the name if one was given, the
/// input if one was asked for, then the armed state and the record mode.
pub open spec fn requested_settings(request: AddTrackView) -> Seq<TrackSettingView> {
    (if request.name.len() > 0 {
        seq![TrackSettingView::Name(request.name)]
    } else {
        Seq::empty()
    }) + (if request.input >= 0 {
        seq![TrackSettingView::RecInput(midi_input_value(request.input))]
    } else {
        Seq::empty()
    }) + seq![
        TrackSettingView::RecArm(request.record_armed),
        TrackSettingView::RecMode(request.record_mode),
    ]
}

/// The reply to an inserted track: its index.
pub open spec fn add_track_reply(insert_at: i32) -> MessageView {
    MessageView { addr: "/project/add_track/response"@, args: seq![ArgView::Int(insert_at)] }
}

/// How a track is inserted: where, what is then set on it, and the reply to
/// send once the host has made the track.
#[derive(Debug, PartialEq, Eq)]
pub struct AddTrackPlan {
    pub insert_at: i32,
    pub settings: Vec<TrackSetting>,
    pub reply: Message,
}

/// A way of setting the record input of a track. The host does not take
/// every way on every version, so they are tried in this order until the
/// input reads back as set.
#[derive(Clone, Copy, Debug, PartialEq, Eq, Structural)]
pub enum InputApproach {
    /// Set the value through the value accessor.
    SetValue,
    /// Set the value through the pointer accessor.
    SetPointer,
    /// Run [`SET_MIDI_INPUT_ACTION`].
    RunAction,
}

/// Reads a request to insert a track: see [`requested_track`].
pub fn handle_add_track(msg: &Message) -> (command: Command)
    ensures
        command@ == CommandView::AddTrack(requested_track(msg@)),
{
    let position = match msg.int_arg(0) {
        Some(position) => position,
        None => -1,
    };
    let name = match msg.text_arg(1) {
        Some(name) => name.clone(),
        None => String::new(),
    };
    let input = match msg.int_arg(2) {
        Some(input) => input,
        None => -1,
    };
    let record_armed = match msg.bool_arg(3) {
        Some(armed) => armed,
        None => false,
    };
    let record_mode = match msg.int_arg(4) {
        Some(mode) => mode,
        None => 2,
    };
    Command::AddTrack(AddTrackRequest { position, name, input, record_armed, record_mode })
}

/// Plans the insertion of a track into a list of `track_count` tracks.
pub fn plan_add_track(request: &AddTrackRequest, track_count: i32) -> (plan: AddTrackPlan)
    ensures
        plan.insert_at == insert_position(request.position, track_count),
        setting_views(plan.settings@) == requested_settings(request@),
        plan.reply@ == add_track_reply(plan.insert_at),
{
    let insert_at = if request.position < 0 || request.position > track_count {
        track_count
    } else {
        request.position
    };
    let mut settings: Vec<TrackSetting> = Vec::new();
    if !request.name.as_str().is_empty() {
        settings.push(TrackSetting::Name(request.name.clone()));
    }
    if request.input >= 0 {
        let value = if 0 < request.input && request.input < 4096 {
            4096 + request.input + 63 * 32
        } else {
            request.input
        };
        settings.push(TrackSetting::RecInput(value));
    }
    settings.push(TrackSetting::RecArm(request.record_armed));
    settings.push(TrackSetting::RecMode(request.record_mode));
    let reply = Message {
        addr: "/project/add_track/response".to_owned(),
        args: vec![OscArg::Int(insert_at)],
    };
    proof {
        assert(reply@.args =~= add_track_reply(insert_at).args);
    }
    AddTrackPlan { insert_at, settings, reply }
}

/// The next way to set the record input, after `tried` was tried and the
/// input then read back as `readback`: none if the input is set (it reads
/// back as other than 0) or if every way was tried.
pub fn next_input_approach(tried: InputApproach, readback: i32) -> (next: Option<InputApproach>)
    ensures
        next == if readback != 0 {
            None
        } else {
            match tried {
                InputApproach::SetValue => Some(InputApproach::SetPointer),
                InputApproach::SetPointer => Some(InputApproach::RunAction),
                InputApproach::RunAction => None,
            }
        },
{
    if readback != 0 {
        None
    } else {
        match tried {
            InputApproach::SetValue => Some(InputApproach::SetPointer),
            InputApproach::SetPointer => Some(InputApproach::RunAction),
            InputApproach::RunAction => None,
        }
    }
}

/// The reply that reports the name of the current project.
pub open spec fn project_name_reply(name: Seq<char>) -> MessageView {
    MessageView { addr: "/project/name/response"@, args: seq![ArgView::String(name)] }
}

/// The reply that acknowledges a request to rename the project to `name`.
pub open spec fn set_project_name_reply(name: Seq<char>) -> MessageView {
    MessageView {
        addr: "/project/name/set/response"@,
        args: seq![ArgView::String("success"@), ArgView::String(name)],
    }
}

/// Reads a request for the name of the current project. It takes no
/// argument.
pub fn handle_get_project_name(msg: &Message) -> (command: Command)
    ensures
        command@ == CommandView::GetProjectName,
{
    Command::GetProjectName
}

/// The reply to a request for the name of the current project: the name
/// that the host gave, or no reply if it gave none.
pub fn project_name_response(name: Option<&str>) -> (reply: Option<Message>)
    ensures
        match name {
            Some(given) => reply matches Some(message) && message@ == project_name_reply(given@),
            None => reply.is_none(),
        },
{
    match name {
        Some(given) => {
            let message = Message {
                addr: "/project/name/response".to_owned(),
                args: vec![text(given)],
            };
            assert(message@.args =~= project_name_reply(given@).args);
            Some(message)
        },
        None => None,
    }
}

/// What a request to rename the current project asks for: the new name is
/// the text at place 0. Without one the message asks for nothing.
pub open spec fn set_project_name_command(msg: MessageView) -> CommandView {
    match msg.text_at(0) {
        Some(name) => CommandView::SetProjectName { name },
        None => CommandView::Ignore,
    }
}

/// Reads a request to rename the current project: see
/// [`set_project_name_command`].
pub fn handle_set_project_name(msg: &Message) -> (command: Command)
    ensures
        command@ == set_project_name_command(msg@),
{
    match msg.text_arg(0) {
        Some(name) => Command::SetProjectName { name: name.clone() },
        None => Command::Ignore,
    }
}

/// The reply to a request to rename the current project to `name`. The
/// host offers no way to rename a project outright, so the request is
/// acknowledged and no more.
pub fn set_project_name_response(name: &str) -> (reply: Message)
    ensures
        reply@ == set_project_name_reply(name@),
{
    let reply = Message {
        addr: "/project/name/set/response".to_owned(),
        args: vec![text("success"), text(name)],
    };
    assert(reply@.args =~= set_project_name_reply(name@).args);
    reply
}

} // verus!
