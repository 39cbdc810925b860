//! Playing notes: the request, the channel it resolves to, and the voices
//! that sound.
//!
//! A voice is keyed by MIDI channel and pitch. A request names its channel
//! outright, or names a track, which is resolved to the channel that the
//! track takes its MIDI input from before anything is played; the key of
//! the voice is the channel in both cases.

use crate::numeral::{signed_decimal, signed_decimal_text};
use crate::osc::message::{text, ArgView, Message, MessageView, OscArg};
use crate::reaper::command::{Command, CommandView};
use crate::reaper::midi::note_manager::{
    clamp_data, play_step, scheduled_note, ActiveNote, MidiMessage, NoteManager, VoiceTable,
    FIRST_CHANNEL, LAST_CHANNEL, MAX_DATA,
};
use vstd::prelude::*;

pub mod note_manager;
pub mod ordering;

verus! {

/// The pitch that is played where a request names none: middle C.
pub const DEFAULT_NOTE: i32 = 60;

/// The velocity that is played where a request names none.
pub const DEFAULT_VELOCITY: i32 = 100;

/// The duration in milliseconds where a request names none.
pub const DEFAULT_DURATION_MS: i32 = 1000;

/// The record input from which on a track takes MIDI.
pub const MIDI_INPUT_FLAG: i32 = 4096;

/// What a request plays on.
#[derive(Debug, PartialEq, Eq)]
pub enum NoteTarget {
    /// A channel, as the peer wrote it.
    Channel(i32),
    /// The track of this name.
    Track(String),
}

/// What a target is, as a mathematical value.
pub enum NoteTargetView {
    Channel(i32),
    Track(Seq<char>),
}

impl View for NoteTarget {
    type V = NoteTargetView;

    open spec fn view(&self) -> NoteTargetView {
        match *self {
            NoteTarget::Channel(channel) => NoteTargetView::Channel(channel),
            NoteTarget::Track(name) => NoteTargetView::Track(name@),
        }
    }
}

/// A request to play a note.
#[derive(Debug, PartialEq, Eq)]
pub struct NoteRequest {
    pub target: NoteTarget,
    /// The pitch, 0 to 127.
    pub note: u8,
    /// The velocity, 0 to 127.
    pub velocity: u8,
    /// The duration in milliseconds, as the peer wrote it.
    pub duration_ms: i32,
}

/// What a request to play a note is, as a mathematical value.
pub struct NoteRequestView {
    pub target: NoteTargetView,
    pub note: u8,
    pub velocity: u8,
    pub duration_ms: i32,
}

impl View for NoteRequest {
    type V = NoteRequestView;

    open spec fn view(&self) -> NoteRequestView {
        NoteRequestView {
            target: self.target@,
            note: self.note,
            velocity: self.velocity,
            duration_ms: self.duration_ms,
        }
    }
}

/// A requested pitch or velocity brought into the range of a MIDI data
/// byte.
pub open spec fn clamp_to_data(value: i32) -> u8 {
    if value < 0 {
        0
    } else if value > MAX_DATA {
        MAX_DATA
    } else {
        value as u8
    }
}

/// What the message plays on: the channel if an integer stands at place 0,
/// the track if a text that is not empty stands there, else nothing.
pub open spec fn requested_target(msg: MessageView) -> Option<NoteTargetView> {
    match msg.int_at(0) {
        Some(channel) => Some(NoteTargetView::Channel(channel)),
        None => match msg.text_at(0) {
            Some(name) if name.len() > 0 => Some(NoteTargetView::Track(name)),
            _ => None,
        },
    }
}

/// The request that a message makes, if it names a target. Pitch, velocity
/// and duration are the integers at places 1, 2 and 3; each is optional and
/// defaults to 60, 100 and 1000. Pitch and velocity are clamped to 0..=127.
pub open spec fn requested_note(msg: MessageView) -> Option<NoteRequestView> {
    match requested_target(msg) {
        Some(target) => Some(
            NoteRequestView {
                target,
                note: clamp_to_data(
                    match msg.int_at(1) {
                        Some(note) => note,
                        None => DEFAULT_NOTE,
                    },
                ),
                velocity: clamp_to_data(
                    match msg.int_at(2) {
                        Some(velocity) => velocity,
                        None => DEFAULT_VELOCITY,
                    },
                ),
                duration_ms: match msg.int_at(3) {
                    Some(duration) => duration,
                    None => DEFAULT_DURATION_MS,
                },
            },
        ),
        None => None,
    }
}

/// What the host reported of one track for the search of a MIDI channel.
#[derive(Debug, PartialEq, Eq)]
pub struct TrackInput {
    /// The name of the track; `None` if the host gave none.
    pub name: Option<String>,
    /// The record input of the track, as the host stores it.
    pub rec_input: i32,
}

/// The channel that a record input names: the input takes MIDI (it is 4096
/// or more) and its low five bits are a channel from 1 to 16. The value 0 in
/// those bits stands for all channels and names none.
pub open spec fn input_channel(rec_input: i32) -> Option<u8> {
    if rec_input >= MIDI_INPUT_FLAG && FIRST_CHANNEL <= rec_input % 32 <= LAST_CHANNEL {
        Some((rec_input % 32) as u8)
    } else {
        None
    }
}

/// Whether the track is called `name` and names a channel.
pub open spec fn track_answers(track: TrackInput, name: Seq<char>) -> bool {
    &&& track.name matches Some(own)
    &&& own@ == name
    &&& input_channel(track.rec_input).is_some()
}

/// The channel of the first track that is called `name` and names a
/// channel.
pub open spec fn track_channel(tracks: Seq<TrackInput>, name: Seq<char>) -> Option<u8>
    decreases tracks.len(),
{
    if tracks.len() == 0 {
        None
    } else if track_answers(tracks[0], name) {
        input_channel(tracks[0].rec_input)
    } else {
        track_channel(tracks.drop_first(), name)
    }
}

/// The channel that a target stands for: its own if it is one of the
/// sixteen, or that of the track it names.
pub open spec fn resolved_channel(target: NoteTargetView, tracks: Seq<TrackInput>) -> Option<u8> {
    match target {
        NoteTargetView::Channel(channel) => if FIRST_CHANNEL <= channel <= LAST_CHANNEL {
            Some(channel as u8)
        } else {
            None
        },
        NoteTargetView::Track(name) => track_channel(tracks, name),
    }
}

/// The time that the timer of a note runs, in milliseconds: the requested
/// duration as an unsigned 64-bit number, so that a negative duration wraps
/// to a time beyond any sitting.
pub open spec fn timer_ms(duration_ms: i32) -> u64 {
    if duration_ms >= 0 {
        duration_ms as u64
    } else {
        (duration_ms + 0x1_0000_0000_0000_0000) as u64
    }
}

/// The target as the argument that replies repeat it by.
pub open spec fn target_arg(target: NoteTargetView) -> ArgView {
    match target {
        NoteTargetView::Channel(channel) => ArgView::Int(channel),
        NoteTargetView::Track(name) => ArgView::String(name),
    }
}

/// The reply that confirms a played note: the word `success`, the target,
/// then pitch and velocity as they were played and the duration as it was
/// asked for.
pub open spec fn note_ack(request: NoteRequestView) -> MessageView {
    MessageView {
        addr: "/note/response"@,
        args: seq![
            ArgView::String("success"@),
            target_arg(request.target),
            ArgView::Int(clamp_data(request.note) as i32),
            ArgView::Int(clamp_data(request.velocity) as i32),
            ArgView::Int(request.duration_ms),
        ],
    }
}

/// Why a target stands for no channel, in words that name it.
pub open spec fn target_failure(target: NoteTargetView) -> Seq<char> {
    match target {
        NoteTargetView::Channel(channel) => "Invalid MIDI channel "@ + signed_decimal(
            channel as int,
        ),
        NoteTargetView::Track(name) => "Track '"@ + name + "' not found"@,
    }
}

/// The reply to a request whose target stands for no channel.
pub open spec fn note_error(target: NoteTargetView) -> MessageView {
    MessageView {
        addr: "/note/response"@,
        args: seq![ArgView::String("error"@), ArgView::String(target_failure(target))],
    }
}

/// What came of a request to play a note.
#[derive(Debug, PartialEq, Eq)]
pub struct NoteOutcome {
    /// The reply to send.
    pub reply: Message,
    /// The MIDI messages to emit, in order.
    pub midi: Vec<MidiMessage>,
    /// The voice to start a timer for, if one was switched on.
    pub scheduled: Option<ActiveNote>,
}

fn clamp_data_byte(value: i32) -> (clamped: u8)
    ensures
        clamped == clamp_to_data(value),
{
    if value < 0 {
        0
    } else if value > MAX_DATA as i32 {
        MAX_DATA
    } else {
        value as u8
    }
}

/// What a request to play a note asks for: see [`requested_note`]. A
/// message that names no target asks for nothing.
pub open spec fn play_note_command(msg: MessageView) -> CommandView {
    match requested_note(msg) {
        Some(request) => CommandView::PlayNote(request),
        None => CommandView::Ignore,
    }
}

/// Reads a request to play a note: see [`play_note_command`].
pub fn handle_play_note(msg: &Message) -> (command: Command)
    ensures
        command@ == play_note_command(msg@),
{
    let target = match msg.int_arg(0) {
        Some(channel) => NoteTarget::Channel(channel),
        None => match msg.text_arg(0) {
            Some(name) => {
                if name.as_str().is_empty() {
                    return Command::Ignore;
                }
                NoteTarget::Track(name.clone())
            },
            None => {
                return Command::Ignore;
            },
        },
    };
    let note = match msg.int_arg(1) {
        Some(note) => note,
        None => DEFAULT_NOTE,
    };
    let velocity = match msg.int_arg(2) {
        Some(velocity) => velocity,
        None => DEFAULT_VELOCITY,
    };
    let duration_ms = match msg.int_arg(3) {
        Some(duration) => duration,
        None => DEFAULT_DURATION_MS,
    };
    Command::PlayNote(
        NoteRequest {
            target,
            note: clamp_data_byte(note),
            velocity: clamp_data_byte(velocity),
            duration_ms,
        },
    )
}

/// The channel that a record input names: see [`input_channel`].
pub fn channel_of_input(rec_input: i32) -> (channel: Option<u8>)
    ensures
        channel == input_channel(rec_input),
{
    if rec_input >= MIDI_INPUT_FLAG {
        let low = rec_input % 32;
        if low >= FIRST_CHANNEL as i32 && low <= LAST_CHANNEL as i32 {
            return Some(low as u8);
        }
    }
    None
}

/// Finds the channel that the track called `track_name` takes its MIDI
/// input from: that of the first track in `tracks` that has the name and
/// whose record input names a channel. The channel is counted from 1, as
/// the peer counts.
pub fn find_track_midi_channel(track_name: &str, tracks: &Vec<TrackInput>) -> (channel: Option<u8>)
    ensures
        channel == track_channel(tracks@, track_name@),
        channel matches Some(c) ==> FIRST_CHANNEL <= c <= LAST_CHANNEL,
{
    let wanted = track_name.to_owned();
    let mut i: usize = 0;
    assert(tracks@.skip(0) =~= tracks@);
    while i < tracks.len()
        invariant
            i <= tracks.len(),
            wanted@ == track_name@,
            track_channel(tracks@, track_name@) == track_channel(
                tracks@.skip(i as int),
                track_name@,
            ),
        decreases tracks.len() - i,
    {
        let track = &tracks[i];
        proof {
            let rest = tracks@.skip(i as int);
            assert(rest.drop_first() =~= tracks@.skip(i + 1));
        }
        let named = match &track.name {
            Some(own) => *own == wanted,
            None => false,
        };
        if named {
            let channel = channel_of_input(track.rec_input);
            if channel.is_some() {
                return channel;
            }
        }
        i += 1;
    }
    None
}

fn timer_duration(duration_ms: i32) -> (time: u64)
    ensures
        time == timer_ms(duration_ms),
{
    if duration_ms >= 0 {
        duration_ms as u64
    } else {
        u64::MAX - ((-(duration_ms as i64) - 1) as u64)
    }
}

fn resolve_channel(target: &NoteTarget, tracks: &Vec<TrackInput>) -> (channel: Option<u8>)
    ensures
        channel == resolved_channel(target@, tracks@),
        channel matches Some(c) ==> FIRST_CHANNEL <= c <= LAST_CHANNEL,
{
    match target {
        NoteTarget::Channel(channel) => {
            if *channel >= FIRST_CHANNEL as i32 && *channel <= LAST_CHANNEL as i32 {
                Some(*channel as u8)
            } else {
                None
            }
        },
        NoteTarget::Track(name) => find_track_midi_channel(name.as_str(), tracks),
    }
}

fn target_as_arg(target: &NoteTarget) -> (arg: OscArg)
    ensures
        arg@ == target_arg(target@),
{
    match target {
        NoteTarget::Channel(channel) => OscArg::Int(*channel),
        NoteTarget::Track(name) => OscArg::String(name.clone()),
    }
}

fn failure_text(target: &NoteTarget) -> (reason: String)
    ensures
        reason@ == target_failure(target@),
{
    match target {
        NoteTarget::Channel(channel) => "Invalid MIDI channel ".to_owned().concat(
            signed_decimal_text(*channel).as_str(),
        ),
        NoteTarget::Track(name) => "Track '".to_owned().concat(name.as_str()).concat(
            "' not found",
        ),
    }
}

/// Whether the tracks of the host are needed to resolve the target of
/// `request`: they are for a track, and are not for a channel.
pub fn needs_tracks(request: &NoteRequest) -> (needed: bool)
    ensures
        needed == (request.target is Track),
{
    match request.target {
        NoteTarget::Track(_) => true,
        NoteTarget::Channel(_) => false,
    }
}

/// What playing the note of `request` at stamp `now` comes to, from the
/// voices `before` to the voices `after`.
///
/// The target is resolved first: a channel must be one of the sixteen, a
/// track must be among `tracks` and name a channel. If it resolves, the
/// note is played as [`play_step`] says, its timer runs for
/// [`timer_ms`], and the reply confirms it. If it does not, nothing is
/// played and the voices stay as they are; the reply reports the failure
/// and names the target.
pub open spec fn played_as_requested(
    before: VoiceTable,
    after: VoiceTable,
    request: NoteRequestView,
    tracks: Seq<TrackInput>,
    now: u64,
    outcome: NoteOutcome,
) -> bool {
    match resolved_channel(request.target, tracks) {
        Some(channel) => {
            let step = play_step(
                before,
                channel,
                request.note,
                request.velocity,
                timer_ms(request.duration_ms),
                now,
            );
            &&& after == step.table
            &&& outcome.midi@ == step.emitted
            &&& outcome.scheduled == Some(
                scheduled_note(
                    channel,
                    request.note,
                    request.velocity,
                    timer_ms(request.duration_ms),
                    now,
                ),
            )
            &&& outcome.reply@ == note_ack(request)
        },
        None => {
            &&& after == before
            &&& outcome.midi@ == Seq::<MidiMessage>::empty()
            &&& outcome.scheduled.is_none()
            &&& outcome.reply@ == note_error(request.target)
        },
    }
}

/// Plays the note of `request` at stamp `now` on `manager`: see
/// [`played_as_requested`].
pub fn play_requested_note(
    request: &NoteRequest,
    tracks: &Vec<TrackInput>,
    manager: &mut NoteManager,
    now: u64,
) -> (outcome: NoteOutcome)
    requires
        old(manager).wf(),
    ensures
        final(manager).wf(),
        played_as_requested(old(manager)@, final(manager)@, request@, tracks@, now, outcome),
{
    match resolve_channel(&request.target, tracks) {
        Some(channel) => {
            let played = manager.play_note(
                channel,
                request.note,
                request.velocity,
                timer_duration(request.duration_ms),
                now,
            );
            let reply = Message {
                addr: "/note/response".to_owned(),
                args: vec![
                    text("success"),
                    target_as_arg(&request.target),
                    OscArg::Int(played.scheduled.note as i32),
                    OscArg::Int(played.scheduled.velocity as i32),
                    OscArg::Int(request.duration_ms),
                ],
            };
            assert(reply@.args =~= note_ack(request@).args);
            NoteOutcome { reply, midi: played.midi, scheduled: Some(played.scheduled) }
        },
        None => {
            let reply = Message {
                addr: "/note/response".to_owned(),
                args: vec![text("error"), OscArg::String(failure_text(&request.target))],
            };
            assert(reply@.args =~= note_error(request.target@).args);
            NoteOutcome { reply, midi: Vec::new(), scheduled: None }
        },
    }
}

} // verus!
