//! What a received message asks for.

use crate::osc::message::{Message, MessageView, Number};
use crate::reaper::midi::{NoteRequest, NoteRequestView};
use crate::reaper::project::{AddTrackRequest, AddTrackView};
use vstd::prelude::*;

verus! {

/// What a received message asks for, as its handler read it. The embedding
/// program asks the host accordingly and hands the answer to the function
/// that builds the reply.
#[derive(Debug, PartialEq, Eq)]
pub enum Command {
    /// Nothing is asked of the host and nothing is sent.
    Ignore,
    /// The reply is sent as it is; the host is not asked.
    Reply(Message),
    /// Report the name of the current project.
    GetProjectName,
    /// Rename the current project.
    SetProjectName { name: String },
    /// Insert a track.
    AddTrack(AddTrackRequest),
    /// Report the name of the track at `index`.
    GetTrackName { index: i32 },
    /// Rename the track at `index`.
    SetTrackName { index: i32, name: String },
    /// Report the volume of the track at `index`.
    GetTrackVolume { index: i32 },
    /// Set the volume of the track at `index`.
    SetTrackVolume { index: i32, value: Number },
    /// Report the pan of the track at `index`.
    GetTrackPan { index: i32 },
    /// Set the pan of the track at `index`.
    SetTrackPan { index: i32, value: Number },
    /// Report the track at `index` in full.
    ScanTrack { index: i32 },
    /// Play a note.
    PlayNote(NoteRequest),
}

/// What a command is, as a mathematical value.
pub enum CommandView {
    Ignore,
    Reply(MessageView),
    GetProjectName,
    SetProjectName { name: Seq<char> },
    AddTrack(AddTrackView),
    GetTrackName { index: i32 },
    SetTrackName { index: i32, name: Seq<char> },
    GetTrackVolume { index: i32 },
    SetTrackVolume { index: i32, value: Number },
    GetTrackPan { index: i32 },
    SetTrackPan { index: i32, value: Number },
    ScanTrack { index: i32 },
    PlayNote(NoteRequestView),
}

impl View for Command {
    type V = CommandView;

    open spec fn view(&self) -> CommandView {
        match *self {
            Command::Ignore => CommandView::Ignore,
            Command::Reply(reply) => CommandView::Reply(reply@),
            Command::GetProjectName => CommandView::GetProjectName,
            Command::SetProjectName { name } => CommandView::SetProjectName { name: name@ },
            Command::AddTrack(request) => CommandView::AddTrack(request@),
            Command::GetTrackName { index } => CommandView::GetTrackName { index },
            Command::SetTrackName { index, name } => CommandView::SetTrackName {
                index,
                name: name@,
            },
            Command::GetTrackVolume { index } => CommandView::GetTrackVolume { index },
            Command::SetTrackVolume { index, value } => CommandView::SetTrackVolume {
                index,
                value,
            },
            Command::GetTrackPan { index } => CommandView::GetTrackPan { index },
            Command::SetTrackPan { index, value } => CommandView::SetTrackPan { index, value },
            Command::ScanTrack { index } => CommandView::ScanTrack { index },
            Command::PlayNote(request) => CommandView::PlayNote(request@),
        }
    }
}

} // verus!
