//! From a received packet to what each of its messages asks for.

use crate::osc::message::{Message, MessageView, Packet};
use crate::reaper::command::{Command, CommandView};
use crate::reaper::fx::{handle_add_fx, handle_get_fx_param, handle_remove_fx, handle_set_fx_param};
use crate::reaper::midi::{handle_play_note, play_note_command};
use crate::reaper::project::{
    handle_add_track, handle_get_project_name, handle_set_project_name, requested_track,
    set_project_name_command,
};
use crate::reaper::track::scan::{handle_scan_track, scan_track_command};
use crate::reaper::track::{
    get_track_name_command, get_track_pan_command, get_track_volume_command,
    handle_get_track_name, handle_get_track_pan, handle_get_track_volume, handle_set_track_name,
    handle_set_track_pan, handle_set_track_volume, set_track_name_command,
    set_track_pan_command, set_track_volume_command,
};
use vstd::prelude::*;
use vstd::utf8::{encode_utf8, encode_utf8_decode_utf8};

verus! {

/// The entries of the routing table.
#[derive(Clone, Copy, Debug, PartialEq, Eq, Structural)]
pub enum Route {
    GetProjectName,
    SetProjectName,
    AddTrack,
    GetTrackName,
    SetTrackName,
    GetTrackVolume,
    SetTrackVolume,
    GetTrackPan,
    SetTrackPan,
    ScanTrack,
    AddFx,
    RemoveFx,
    GetFxParam,
    SetFxParam,
    PlayNote,
}

/// The routing table: the entry that an address stands for, if any. An
/// address matches as a whole, letter for letter.
pub open spec fn route_of(addr: Seq<char>) -> Option<Route> {
    if addr == "/project/name/get"@ {
        Some(Route::GetProjectName)
    } else if addr == "/project/name/set"@ {
        Some(Route::SetProjectName)
    } else if addr == "/project/add_track"@ {
        Some(Route::AddTrack)
    } else if addr == "/track/name/get"@ {
        Some(Route::GetTrackName)
    } else if addr == "/track/name/set"@ {
        Some(Route::SetTrackName)
    } else if addr == "/track/volume/get"@ {
        Some(Route::GetTrackVolume)
    } else if addr == "/track/volume/set"@ {
        Some(Route::SetTrackVolume)
    } else if addr == "/track/pan/get"@ {
        Some(Route::GetTrackPan)
    } else if addr == "/track/pan/set"@ {
        Some(Route::SetTrackPan)
    } else if addr == "/track/scan"@ {
        Some(Route::ScanTrack)
    } else if addr == "/fx/add"@ {
        Some(Route::AddFx)
    } else if addr == "/fx/remove"@ {
        Some(Route::RemoveFx)
    } else if addr == "/fx/param/get"@ {
        Some(Route::GetFxParam)
    } else if addr == "/fx/param/set"@ {
        Some(Route::SetFxParam)
    } else if addr == "/note"@ {
        Some(Route::PlayNote)
    } else {
        None
    }
}

/// What a message asks for under a route: what the handler of the route
/// reads from it.
pub open spec fn requested(route: Route, msg: MessageView) -> CommandView {
    match route {
        Route::GetProjectName => CommandView::GetProjectName,
        Route::SetProjectName => set_project_name_command(msg),
        Route::AddTrack => CommandView::AddTrack(requested_track(msg)),
        Route::GetTrackName => get_track_name_command(msg),
        Route::SetTrackName => set_track_name_command(msg),
        Route::GetTrackVolume => get_track_volume_command(msg),
        Route::SetTrackVolume => set_track_volume_command(msg),
        Route::GetTrackPan => get_track_pan_command(msg),
        Route::SetTrackPan => set_track_pan_command(msg),
        Route::ScanTrack => scan_track_command(msg),
        Route::AddFx => CommandView::Ignore,
        Route::RemoveFx => CommandView::Ignore,
        Route::GetFxParam => CommandView::Ignore,
        Route::SetFxParam => CommandView::Ignore,
        Route::PlayNote => play_note_command(msg),
    }
}

/// Whether an address is the one by which the peer polls the project name,
/// which arrives too often to be logged: it is `/project/name/get`, letter
/// for letter.
pub open spec fn is_polling(addr: Seq<char>) -> bool {
    addr == "/project/name/get"@
}

/// What is written to the log about a message, besides its receipt.
#[derive(Clone, Copy, Debug, PartialEq, Eq, Structural)]
pub enum Notice {
    /// Nothing.
    Quiet,
    /// The routing table does not hold the address.
    UnknownRoute,
    /// The route is reserved and does nothing yet.
    Reserved,
    /// The request lacks an argument that it cannot do without, or holds
    /// one of another kind, and is dropped.
    Rejected,
}

/// Whether the route is reserved: the table holds it, but it does nothing
/// yet.
pub open spec fn is_reserved(route: Route) -> bool {
    route == Route::AddFx || route == Route::RemoveFx || route == Route::GetFxParam || route
        == Route::SetFxParam
}

/// What is written to the log about a message with this route and this
/// command.
pub open spec fn notice_of(route: Option<Route>, command: CommandView) -> Notice {
    match route {
        None => Notice::UnknownRoute,
        Some(route) => if is_reserved(route) {
            Notice::Reserved
        } else if command == CommandView::Ignore {
            Notice::Rejected
        } else {
            Notice::Quiet
        },
    }
}

/// The address under which a route is answered.
pub open spec fn response_address(route: Route) -> Seq<char> {
    match route {
        Route::GetProjectName => "/project/name/response"@,
        Route::SetProjectName => "/project/name/set/response"@,
        Route::AddTrack => "/project/add_track/response"@,
        Route::GetTrackName => "/track/name/get/response"@,
        Route::SetTrackName => "/track/name/set/response"@,
        Route::GetTrackVolume => "/track/volume/get/response"@,
        Route::SetTrackVolume => "/track/volume/set/response"@,
        Route::GetTrackPan => "/track/pan/get/response"@,
        Route::SetTrackPan => "/track/pan/set/response"@,
        Route::ScanTrack => "/track/scan/response"@,
        Route::AddFx => "/fx/add/response"@,
        Route::RemoveFx => "/fx/remove/response"@,
        Route::GetFxParam => "/fx/param/get/response"@,
        Route::SetFxParam => "/fx/param/set/response"@,
        Route::PlayNote => "/note/response"@,
    }
}

/// What is done with one message.
#[derive(Debug, PartialEq, Eq)]
pub struct Dispatch {
    /// The address of the message.
    pub address: String,
    /// Whether the receipt of the message is logged.
    pub log_receipt: bool,
    /// What else is logged about the message.
    pub notice: Notice,
    /// The entry of the routing table, or `None` for an address that the
    /// table does not hold: such a message is logged as unknown and gets no
    /// reply.
    pub route: Option<Route>,
    /// What the message asks for.
    pub command: Command,
}

/// What a dispatch is, as a mathematical value.
pub struct DispatchView {
    pub address: Seq<char>,
    pub log_receipt: bool,
    pub notice: Notice,
    pub route: Option<Route>,
    pub command: CommandView,
}

impl View for Dispatch {
    type V = DispatchView;

    open spec fn view(&self) -> DispatchView {
        DispatchView {
            address: self.address@,
            log_receipt: self.log_receipt,
            notice: self.notice,
            route: self.route,
            command: self.command@,
        }
    }
}

/// The views of a sequence of dispatches, in order.
pub open spec fn dispatch_views(dispatches: Seq<Dispatch>) -> Seq<DispatchView> {
    dispatches.map_values(|d: Dispatch| d@)
}

/// What a message asks for: what the handler of its route reads from it,
/// and nothing for an address that the table does not hold.
pub open spec fn command_of(msg: MessageView) -> CommandView {
    match route_of(msg.addr) {
        Some(route) => requested(route, msg),
        None => CommandView::Ignore,
    }
}

/// What is done with a message: it is looked up in the routing table and
/// read by the handler of its route. Every message is logged at receipt,
/// whether the table holds its address or not, with one exception: the
/// address `/project/name/get` itself. A message that is unknown, reserved
/// or rejected is logged as such.
pub open spec fn dispatch_of(msg: MessageView) -> DispatchView {
    DispatchView {
        address: msg.addr,
        log_receipt: !is_polling(msg.addr),
        notice: notice_of(route_of(msg.addr), command_of(msg)),
        route: route_of(msg.addr),
        command: command_of(msg),
    }
}

/// What is done with each message of a sequence, in order.
pub open spec fn dispatches_of(messages: Seq<MessageView>) -> Seq<DispatchView> {
    messages.map_values(|m: MessageView| dispatch_of(m))
}

/// Whether two texts are the same.
pub fn same_text(a: &str, b: &str) -> (same: bool)
    ensures
        same == (a@ == b@),
{
    let left = a.as_bytes();
    let right = b.as_bytes();
    proof {
        encode_utf8_decode_utf8(a@);
        encode_utf8_decode_utf8(b@);
    }
    if left.len() != right.len() {
        return false;
    }
    let mut i: usize = 0;
    while i < left.len()
        invariant
            i <= left.len(),
            left.len() == right.len(),
            left@ == encode_utf8(a@),
            right@ == encode_utf8(b@),
            forall|j: int| 0 <= j < i ==> left[j] == right[j],
        decreases left.len() - i,
    {
        if left[i] != right[i] {
            return false;
        }
        i += 1;
    }
    assert(left@ =~= right@);
    true
}

fn polls(addr: &str) -> (polling: bool)
    ensures
        polling == is_polling(addr@),
{
    same_text(addr, "/project/name/get")
}

/// The address under which a route is answered: see [`response_address`].
pub fn address_of_response(route: Route) -> (addr: &'static str)
    ensures
        addr@ == response_address(route),
{
    match route {
        Route::GetProjectName => "/project/name/response",
        Route::SetProjectName => "/project/name/set/response",
        Route::AddTrack => "/project/add_track/response",
        Route::GetTrackName => "/track/name/get/response",
        Route::SetTrackName => "/track/name/set/response",
        Route::GetTrackVolume => "/track/volume/get/response",
        Route::SetTrackVolume => "/track/volume/set/response",
        Route::GetTrackPan => "/track/pan/get/response",
        Route::SetTrackPan => "/track/pan/set/response",
        Route::ScanTrack => "/track/scan/response",
        Route::AddFx => "/fx/add/response",
        Route::RemoveFx => "/fx/remove/response",
        Route::GetFxParam => "/fx/param/get/response",
        Route::SetFxParam => "/fx/param/set/response",
        Route::PlayNote => "/note/response",
    }
}

/// The entry of the routing table for an address: see [`route_of`].
pub fn find_route(addr: &str) -> (route: Option<Route>)
    ensures
        route == route_of(addr@),
{
    if same_text(addr, "/project/name/get") {
        Some(Route::GetProjectName)
    } else if same_text(addr, "/project/name/set") {
        Some(Route::SetProjectName)
    } else if same_text(addr, "/project/add_track") {
        Some(Route::AddTrack)
    } else if same_text(addr, "/track/name/get") {
        Some(Route::GetTrackName)
    } else if same_text(addr, "/track/name/set") {
        Some(Route::SetTrackName)
    } else if same_text(addr, "/track/volume/get") {
        Some(Route::GetTrackVolume)
    } else if same_text(addr, "/track/volume/set") {
        Some(Route::SetTrackVolume)
    } else if same_text(addr, "/track/pan/get") {
        Some(Route::GetTrackPan)
    } else if same_text(addr, "/track/pan/set") {
        Some(Route::SetTrackPan)
    } else if same_text(addr, "/track/scan") {
        Some(Route::ScanTrack)
    } else if same_text(addr, "/fx/add") {
        Some(Route::AddFx)
    } else if same_text(addr, "/fx/remove") {
        Some(Route::RemoveFx)
    } else if same_text(addr, "/fx/param/get") {
        Some(Route::GetFxParam)
    } else if same_text(addr, "/fx/param/set") {
        Some(Route::SetFxParam)
    } else if same_text(addr, "/note") {
        Some(Route::PlayNote)
    } else {
        None
    }
}

/// Routes one message: see [`dispatch_of`].
pub fn handle_osc_message(msg: &Message) -> (dispatch: Dispatch)
    ensures
        dispatch@ == dispatch_of(msg@),
{
    let route = find_route(msg.addr.as_str());
    let command = match route {
        Some(Route::GetProjectName) => handle_get_project_name(msg),
        Some(Route::SetProjectName) => handle_set_project_name(msg),
        Some(Route::AddTrack) => handle_add_track(msg),
        Some(Route::GetTrackName) => handle_get_track_name(msg),
        Some(Route::SetTrackName) => handle_set_track_name(msg),
        Some(Route::GetTrackVolume) => handle_get_track_volume(msg),
        Some(Route::SetTrackVolume) => handle_set_track_volume(msg),
        Some(Route::GetTrackPan) => handle_get_track_pan(msg),
        Some(Route::SetTrackPan) => handle_set_track_pan(msg),
        Some(Route::ScanTrack) => handle_scan_track(msg),
        Some(Route::AddFx) => handle_add_fx(msg),
        Some(Route::RemoveFx) => handle_remove_fx(msg),
        Some(Route::GetFxParam) => handle_get_fx_param(msg),
        Some(Route::SetFxParam) => handle_set_fx_param(msg),
        Some(Route::PlayNote) => handle_play_note(msg),
        None => Command::Ignore,
    };
    let notice = match route {
        None => Notice::UnknownRoute,
        Some(Route::AddFx) | Some(Route::RemoveFx) | Some(Route::GetFxParam) | Some(
            Route::SetFxParam,
        ) => Notice::Reserved,
        Some(_) => match command {
            Command::Ignore => Notice::Rejected,
            _ => Notice::Quiet,
        },
    };
    Dispatch {
        address: msg.addr.clone(),
        log_receipt: !polls(msg.addr.as_str()),
        notice,
        route,
        command,
    }
}

/// Routes every message of a packet, in the order of the frame: a bundle is
/// opened in place, however deep bundles nest.
pub fn handle_osc_packet(packet: &Packet) -> (dispatches: Vec<Dispatch>)
    ensures
        dispatch_views(dispatches@) == dispatches_of(packet.messages()),
    decreases packet,
{
    let mut dispatches: Vec<Dispatch> = Vec::new();
    match packet {
        Packet::Message(msg) => {
            dispatches.push(handle_osc_message(msg));
        },
        Packet::Bundle(content) => {
            let mut i: usize = 0;
            while i < content.len()
                invariant
                    i <= content.len(),
                    *packet is Bundle,
                    packet->Bundle_0 == *content,
                    dispatch_views(dispatches@) == dispatches_of(
                        Packet::messages_of(content@, i as int),
                    ),
                decreases content.len() - i,
            {
                let mut inner = handle_osc_packet(&content[i]);
                dispatches.append(&mut inner);
                assert(dispatch_views(dispatches@) =~= dispatches_of(
                    Packet::messages_of(content@, i + 1),
                )) by {
                    let head = Packet::messages_of(content@, i as int);
                    let tail = content[i as int].messages();
                    assert(dispatches_of(head + tail) =~= dispatches_of(head) + dispatches_of(tail));
                }
                i += 1;
            }
        },
    }
    dispatches
}

} // verus!
