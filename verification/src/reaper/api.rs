//! The capabilities of the host: which of its functions the bridge looks
//! up at load, which of them were found, which a route cannot do without,
//! and what is answered where one of those is missing.

use crate::osc::message::{text, ArgView, Message, MessageView, OscArg};
use crate::osc::router::{address_of_response, response_address, Dispatch, Route};
use crate::reaper::command::{Command, CommandView};
use vstd::prelude::*;

verus! {

/// The number of capabilities.
pub const CAPABILITY_COUNT: usize = 26;

/// A function of the host that the bridge may call.
#[derive(Clone, Copy, Debug, PartialEq, Eq, Structural)]
pub enum Capability {
    /// Write a line to the console of the host.
    ShowConsoleMsg,
    /// Read the name of a project.
    GetProjectName,
    /// Find the current project.
    EnumProjects,
    /// Run an action of the host.
    MainOnCommand,
    /// Read or write a property of a track through a pointer.
    GetSetMediaTrackInfo,
    /// Insert a track.
    InsertTrackAtIndex,
    /// Count the tracks.
    CountTracks,
    /// Find a track by its place.
    GetTrack,
    /// Read the name of a track.
    GetTrackName,
    /// Hand a MIDI message to the host.
    StuffMidiMessage,
    /// Count the effects of a track.
    TrackFxGetCount,
    /// Read the name of an effect.
    TrackFxGetFxName,
    /// Read whether an effect is enabled.
    TrackFxGetEnabled,
    /// Read the preset of an effect.
    TrackFxGetPreset,
    /// Count the parameters of an effect.
    TrackFxGetNumParams,
    /// Read the name of a parameter.
    TrackFxGetParamName,
    /// Read the value and the bounds of a parameter.
    TrackFxGetParam,
    /// Read the value of a parameter in words.
    TrackFxGetFormattedParamValue,
    /// Count the sends of a track.
    GetTrackNumSends,
    /// Read a property of a send.
    GetTrackSendInfoValue,
    /// Read the name of a send.
    GetTrackSendName,
    /// Read the color of a track.
    GetTrackColor,
    /// Write a numeric property of a track.
    SetMediaTrackInfoValue,
    /// Read a numeric property of a track.
    GetMediaTrackInfoValue,
    /// Tell control surfaces that the track list changed.
    TrackListUpdateAllExternalSurfaces,
    /// Redraw the timeline.
    UpdateTimeline,
}

impl Capability {
    /// The place of the capability in the list that is looked up at load.
    pub open spec fn ordinal(self) -> int {
        match self {
            Capability::ShowConsoleMsg => 0,
            Capability::GetProjectName => 1,
            Capability::EnumProjects => 2,
            Capability::MainOnCommand => 3,
            Capability::GetSetMediaTrackInfo => 4,
            Capability::InsertTrackAtIndex => 5,
            Capability::CountTracks => 6,
            Capability::GetTrack => 7,
            Capability::GetTrackName => 8,
            Capability::StuffMidiMessage => 9,
            Capability::TrackFxGetCount => 10,
            Capability::TrackFxGetFxName => 11,
            Capability::TrackFxGetEnabled => 12,
            Capability::TrackFxGetPreset => 13,
            Capability::TrackFxGetNumParams => 14,
            Capability::TrackFxGetParamName => 15,
            Capability::TrackFxGetParam => 16,
            Capability::TrackFxGetFormattedParamValue => 17,
            Capability::GetTrackNumSends => 18,
            Capability::GetTrackSendInfoValue => 19,
            Capability::GetTrackSendName => 20,
            Capability::GetTrackColor => 21,
            Capability::SetMediaTrackInfoValue => 22,
            Capability::GetMediaTrackInfoValue => 23,
            Capability::TrackListUpdateAllExternalSurfaces => 24,
            Capability::UpdateTimeline => 25,
        }
    }

    /// The place of the capability: see [`Self::ordinal`].
    pub fn index(self) -> (place: usize)
        ensures
            place == self.ordinal(),
            place < CAPABILITY_COUNT,
    {
        match self {
            Capability::ShowConsoleMsg => 0,
            Capability::GetProjectName => 1,
            Capability::EnumProjects => 2,
            Capability::MainOnCommand => 3,
            Capability::GetSetMediaTrackInfo => 4,
            Capability::InsertTrackAtIndex => 5,
            Capability::CountTracks => 6,
            Capability::GetTrack => 7,
            Capability::GetTrackName => 8,
            Capability::StuffMidiMessage => 9,
            Capability::TrackFxGetCount => 10,
            Capability::TrackFxGetFxName => 11,
            Capability::TrackFxGetEnabled => 12,
            Capability::TrackFxGetPreset => 13,
            Capability::TrackFxGetNumParams => 14,
            Capability::TrackFxGetParamName => 15,
            Capability::TrackFxGetParam => 16,
            Capability::TrackFxGetFormattedParamValue => 17,
            Capability::GetTrackNumSends => 18,
            Capability::GetTrackSendInfoValue => 19,
            Capability::GetTrackSendName => 20,
            Capability::GetTrackColor => 21,
            Capability::SetMediaTrackInfoValue => 22,
            Capability::GetMediaTrackInfoValue => 23,
            Capability::TrackListUpdateAllExternalSurfaces => 24,
            Capability::UpdateTimeline => 25,
        }
    }

    /// The name under which the host offers the function.
    pub fn symbol(self) -> (name: &'static str)
        ensures
            name@ == self.symbol_text(),
    {
        match self {
            Capability::ShowConsoleMsg => "ShowConsoleMsg",
            Capability::GetProjectName => "GetProjectName",
            Capability::EnumProjects => "EnumProjects",
            Capability::MainOnCommand => "Main_OnCommand",
            Capability::GetSetMediaTrackInfo => "GetSetMediaTrackInfo",
            Capability::InsertTrackAtIndex => "InsertTrackAtIndex",
            Capability::CountTracks => "CountTracks",
            Capability::GetTrack => "GetTrack",
            Capability::GetTrackName => "GetTrackName",
            Capability::StuffMidiMessage => "StuffMIDIMessage",
            Capability::TrackFxGetCount => "TrackFX_GetCount",
            Capability::TrackFxGetFxName => "TrackFX_GetFXName",
            Capability::TrackFxGetEnabled => "TrackFX_GetEnabled",
            Capability::TrackFxGetPreset => "TrackFX_GetPreset",
            Capability::TrackFxGetNumParams => "TrackFX_GetNumParams",
            Capability::TrackFxGetParamName => "TrackFX_GetParamName",
            Capability::TrackFxGetParam => "TrackFX_GetParam",
            Capability::TrackFxGetFormattedParamValue => "TrackFX_GetFormattedParamValue",
            Capability::GetTrackNumSends => "GetTrackNumSends",
            Capability::GetTrackSendInfoValue => "GetTrackSendInfo_Value",
            Capability::GetTrackSendName => "GetTrackSendName",
            Capability::GetTrackColor => "GetTrackColor",
            Capability::SetMediaTrackInfoValue => "SetMediaTrackInfo_Value",
            Capability::GetMediaTrackInfoValue => "GetMediaTrackInfo_Value",
            Capability::TrackListUpdateAllExternalSurfaces => "TrackList_UpdateAllExternalSurfaces",
            Capability::UpdateTimeline => "UpdateTimeline",
        }
    }

    /// The name under which the host offers the function.
    pub open spec fn symbol_text(self) -> Seq<char> {
        match self {
            Capability::ShowConsoleMsg => "ShowConsoleMsg"@,
            Capability::GetProjectName => "GetProjectName"@,
            Capability::EnumProjects => "EnumProjects"@,
            Capability::MainOnCommand => "Main_OnCommand"@,
            Capability::GetSetMediaTrackInfo => "GetSetMediaTrackInfo"@,
            Capability::InsertTrackAtIndex => "InsertTrackAtIndex"@,
            Capability::CountTracks => "CountTracks"@,
            Capability::GetTrack => "GetTrack"@,
            Capability::GetTrackName => "GetTrackName"@,
            Capability::StuffMidiMessage => "StuffMIDIMessage"@,
            Capability::TrackFxGetCount => "TrackFX_GetCount"@,
            Capability::TrackFxGetFxName => "TrackFX_GetFXName"@,
            Capability::TrackFxGetEnabled => "TrackFX_GetEnabled"@,
            Capability::TrackFxGetPreset => "TrackFX_GetPreset"@,
            Capability::TrackFxGetNumParams => "TrackFX_GetNumParams"@,
            Capability::TrackFxGetParamName => "TrackFX_GetParamName"@,
            Capability::TrackFxGetParam => "TrackFX_GetParam"@,
            Capability::TrackFxGetFormattedParamValue => "TrackFX_GetFormattedParamValue"@,
            Capability::GetTrackNumSends => "GetTrackNumSends"@,
            Capability::GetTrackSendInfoValue => "GetTrackSendInfo_Value"@,
            Capability::GetTrackSendName => "GetTrackSendName"@,
            Capability::GetTrackColor => "GetTrackColor"@,
            Capability::SetMediaTrackInfoValue => "SetMediaTrackInfo_Value"@,
            Capability::GetMediaTrackInfoValue => "GetMediaTrackInfo_Value"@,
            Capability::TrackListUpdateAllExternalSurfaces => "TrackList_UpdateAllExternalSurfaces"@,
            Capability::UpdateTimeline => "UpdateTimeline"@,
        }
    }
}

/// The capabilities in the order in which they are looked up at load.
pub fn capabilities() -> (list: Vec<Capability>)
    ensures
        list.len() == CAPABILITY_COUNT,
        forall|i: int| 0 <= i < list.len() ==> (#[trigger] list[i]).ordinal() == i,
{
    vec![
        Capability::ShowConsoleMsg,
        Capability::GetProjectName,
        Capability::EnumProjects,
        Capability::MainOnCommand,
        Capability::GetSetMediaTrackInfo,
        Capability::InsertTrackAtIndex,
        Capability::CountTracks,
        Capability::GetTrack,
        Capability::GetTrackName,
        Capability::StuffMidiMessage,
        Capability::TrackFxGetCount,
        Capability::TrackFxGetFxName,
        Capability::TrackFxGetEnabled,
        Capability::TrackFxGetPreset,
        Capability::TrackFxGetNumParams,
        Capability::TrackFxGetParamName,
        Capability::TrackFxGetParam,
        Capability::TrackFxGetFormattedParamValue,
        Capability::GetTrackNumSends,
        Capability::GetTrackSendInfoValue,
        Capability::GetTrackSendName,
        Capability::GetTrackColor,
        Capability::SetMediaTrackInfoValue,
        Capability::GetMediaTrackInfoValue,
        Capability::TrackListUpdateAllExternalSurfaces,
        Capability::UpdateTimeline,
    ]
}

/// Which capabilities the host offers. The table is made once, at load, and
/// only read afterwards.
#[derive(Debug, PartialEq, Eq)]
pub struct CapabilityTable {
    present: Vec<bool>,
}

impl CapabilityTable {
    /// The capabilities that the host offers.
    pub closed spec fn view(&self) -> Set<Capability> {
        Set::new(
            |capability: Capability|
                capability.ordinal() < self.present.len() && self.present[capability.ordinal()],
        )
    }

    /// Whether the host offers the capability.
    pub fn has(&self, capability: Capability) -> (present: bool)
        ensures
            present == self@.contains(capability),
    {
        let place = capability.index();
        place < self.present.len() && self.present[place]
    }

    /// The first capability that the route cannot do without and the host
    /// does not offer, if there is one: see [`first_missing`].
    pub fn missing(&self, route: Route) -> (lacking: Option<Capability>)
        ensures
            lacking == first_missing(self@, required(route)),
            lacking.is_none() <==> forall|i: int|
                0 <= i < required(route).len() ==> self@.contains(#[trigger] required(route)[i]),
    {
        let needed = required_capabilities(route);
        let mut i: usize = 0;
        proof {
            assert(needed@.skip(0) =~= needed@);
        }
        while i < needed.len()
            invariant
                i <= needed.len(),
                needed@ == required(route),
                forall|j: int| 0 <= j < i ==> self@.contains(#[trigger] needed[j]),
                first_missing(self@, needed@) == first_missing(self@, needed@.skip(i as int)),
            decreases needed.len() - i,
        {
            proof {
                assert(needed@.skip(i as int).drop_first() =~= needed@.skip(i + 1));
            }
            if !self.has(needed[i]) {
                return Some(needed[i]);
            }
            i += 1;
        }
        None
    }

    /// Whether the host offers every capability that the route cannot do
    /// without: see [`required`].
    pub fn serves(&self, route: Route) -> (served: bool)
        ensures
            served == first_missing(self@, required(route)).is_none(),
            served == forall|i: int|
                0 <= i < required(route).len() ==> self@.contains(#[trigger] required(route)[i]),
    {
        self.missing(route).is_none()
    }
}

/// The first of the `needed` capabilities that is not among the `offered`
/// ones, if there is one.
pub open spec fn first_missing(offered: Set<Capability>, needed: Seq<Capability>) -> Option<
    Capability,
>
    decreases needed.len(),
{
    if needed.len() == 0 {
        None
    } else if !offered.contains(needed[0]) {
        Some(needed[0])
    } else {
        first_missing(offered, needed.drop_first())
    }
}

/// The reply to a message on a route that the host cannot serve: under the
/// address of the route's replies, the word `error`, then a text that names
/// the function that the host lacks.
pub open spec fn unserved_reply(route: Route, lacking: Capability) -> MessageView {
    MessageView {
        addr: response_address(route),
        args: seq![
            ArgView::String("error"@),
            ArgView::String("Host function not available: "@ + lacking.symbol_text()),
        ],
    }
}

/// What is done about a dispatched message on a host with these
/// capabilities. Where the host offers all that the route cannot do
/// without, and for a message without a route, it is what the message asks
/// for. Where the host lacks one, nothing is asked of the host and the
/// message is answered with [`unserved_reply`], which names the first that
/// is missing.
pub open spec fn served(offered: Set<Capability>, route: Option<Route>, command: CommandView)
    -> CommandView {
    match route {
        Some(route) => match first_missing(offered, required(route)) {
            Some(lacking) => CommandView::Reply(unserved_reply(route, lacking)),
            None => command,
        },
        None => command,
    }
}

/// Decides what is done about a dispatched message on the host that
/// `table` describes: see [`served`].
pub fn served_command(table: &CapabilityTable, dispatch: Dispatch) -> (command: Command)
    ensures
        command@ == served(table@, dispatch@.route, dispatch@.command),
{
    match dispatch.route {
        Some(route) => match table.missing(route) {
            Some(lacking) => {
                let reason = "Host function not available: ".to_owned().concat(lacking.symbol());
                let reply = Message {
                    addr: address_of_response(route).to_owned(),
                    args: vec![text("error"), OscArg::String(reason)],
                };
                assert(reply@.args =~= unserved_reply(route, lacking).args);
                Command::Reply(reply)
            },
            None => dispatch.command,
        },
        None => dispatch.command,
    }
}

/// Records what the lookup at load found. `found[i]` says whether the host
/// offers the capability at place `i` of [`capabilities`]; a capability
/// whose place `found` does not reach counts as absent.
pub fn initialize_api(found: &Vec<bool>) -> (table: CapabilityTable)
    ensures
        forall|capability: Capability|
            table@.contains(capability) <==> capability.ordinal() < found.len()
                && found[capability.ordinal()],
{
    let mut present: Vec<bool> = Vec::new();
    let mut i: usize = 0;
    while i < CAPABILITY_COUNT
        invariant
            i <= CAPABILITY_COUNT,
            present.len() == i,
            forall|j: int| 0 <= j < i ==> present[j] == (j < found.len() && found[j]),
        decreases CAPABILITY_COUNT - i,
    {
        present.push(i < found.len() && found[i]);
        i += 1;
    }
    CapabilityTable { present }
}

/// The capabilities that a route cannot do without. Where the host lacks
/// one of them, a message on the route asks nothing of the host and is
/// answered with an error: see [`served`]. A scan and a played note need
/// none: a scan reports what it cannot read as a default, and a note is
/// tracked whether or not the host takes MIDI.
pub open spec fn required(route: Route) -> Seq<Capability> {
    match route {
        Route::GetProjectName => seq![Capability::EnumProjects, Capability::GetProjectName],
        Route::SetProjectName => seq![Capability::MainOnCommand],
        Route::AddTrack => seq![
            Capability::InsertTrackAtIndex,
            Capability::CountTracks,
            Capability::GetTrack,
        ],
        Route::GetTrackName => seq![Capability::GetTrack, Capability::GetTrackName],
        Route::SetTrackName => seq![Capability::GetTrack, Capability::GetSetMediaTrackInfo],
        Route::GetTrackVolume => seq![Capability::GetTrack, Capability::GetSetMediaTrackInfo],
        Route::SetTrackVolume => seq![Capability::GetTrack, Capability::GetSetMediaTrackInfo],
        Route::GetTrackPan => seq![Capability::GetTrack, Capability::GetSetMediaTrackInfo],
        Route::SetTrackPan => seq![Capability::GetTrack, Capability::GetSetMediaTrackInfo],
        _ => Seq::empty(),
    }
}

/// The capabilities that a route cannot do without: see [`required`].
pub fn required_capabilities(route: Route) -> (needed: Vec<Capability>)
    ensures
        needed@ == required(route),
{
    let needed = match route {
        Route::GetProjectName => vec![Capability::EnumProjects, Capability::GetProjectName],
        Route::SetProjectName => vec![Capability::MainOnCommand],
        Route::AddTrack => vec![
            Capability::InsertTrackAtIndex,
            Capability::CountTracks,
            Capability::GetTrack,
        ],
        Route::GetTrackName => vec![Capability::GetTrack, Capability::GetTrackName],
        Route::SetTrackName => vec![Capability::GetTrack, Capability::GetSetMediaTrackInfo],
        Route::GetTrackVolume => vec![Capability::GetTrack, Capability::GetSetMediaTrackInfo],
        Route::SetTrackVolume => vec![Capability::GetTrack, Capability::GetSetMediaTrackInfo],
        Route::GetTrackPan => vec![Capability::GetTrack, Capability::GetSetMediaTrackInfo],
        Route::SetTrackPan => vec![Capability::GetTrack, Capability::GetSetMediaTrackInfo],
        _ => Vec::new(),
    };
    needed
}

} // verus!
