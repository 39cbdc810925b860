//! The life of the extension: what it owns from load to unload.
//!
//! The host calls one entry point, with its context at load and without one
//! at unload. An [`Extension`] is made at load and holds the capability
//! table and the voices. After unload it holds no voice and plays none, so
//! a timer that expires later finds nothing to switch off and no message
//! reaches the host any more.

use crate::reaper::api::{initialize_api, Capability, CapabilityTable};
use crate::reaper::midi::note_manager::{
    channel_offs, next_stamp, note_off_message, stamp_after, stop_step, table_wf,
    timer_is_current, timer_step, valid_channel, ActiveNote,
    MidiMessage, NoteManager, VoiceTable, FIRST_CHANNEL, LAST_CHANNEL, MAX_DATA,
};
use crate::reaper::midi::ordering::{
    held, lemma_sounding_concat, lemma_sounding_offs, sounding,
};
use crate::reaper::midi::{
    play_requested_note, played_as_requested, NoteOutcome, NoteRequest, TrackInput,
};
use vstd::prelude::*;

verus! {

/// What the entry point returns to the host at load.
pub const STATUS_LOADED: i32 = 1;

/// What the entry point returns to the host at unload.
pub const STATUS_UNLOADED: i32 = 0;

/// The note-off messages for every voice of the channels from 1 to
/// `channels`, by rising channel and, within a channel, by rising pitch.
pub open spec fn all_offs(table: VoiceTable, channels: int) -> Seq<MidiMessage>
    decreases channels,
{
    if channels <= 0 {
        Seq::empty()
    } else {
        all_offs(table, channels - 1) + channel_offs(table, channels as u8, MAX_DATA + 1)
    }
}

/// The table without the voices of the channels from 1 to `channels`.
pub open spec fn without_channels(table: VoiceTable, channels: int) -> VoiceTable {
    Map::new(
        |key: (u8, u8)| table.contains_key(key) && key.0 > channels,
        |key: (u8, u8)| table[key],
    )
}

proof fn lemma_offs_of_one_channel(first: VoiceTable, second: VoiceTable, channel: u8, bound: int)
    requires
        forall|pitch: u8|
            first.contains_key((channel, pitch)) == second.contains_key((channel, pitch)),
    ensures
        channel_offs(first, channel, bound) == channel_offs(second, channel, bound),
    decreases bound,
{
    if bound > 0 {
        lemma_offs_of_one_channel(first, second, channel, bound - 1);
    }
}

proof fn lemma_sounding_all_offs(table: VoiceTable, channels: int, channel: u8, pitch: u8)
    requires
        table_wf(table),
        valid_channel(channel),
        0 <= channels <= LAST_CHANNEL,
    ensures
        sounding(all_offs(table, channels), channel, pitch) == if channel <= channels {
            -held(table, channel, pitch)
        } else {
            0
        },
    decreases channels,
{
    if channels > 0 {
        lemma_sounding_all_offs(table, channels - 1, channel, pitch);
        lemma_sounding_offs(table, channels as u8, MAX_DATA + 1, channel, pitch);
        lemma_sounding_concat(
            all_offs(table, channels - 1),
            channel_offs(table, channels as u8, MAX_DATA + 1),
            channel,
            pitch,
        );
    }
}

/// Unload leaves nothing sounding. The messages that unload emits switch
/// off every voice of the table exactly once: for every key they hold one
/// note-off if the table holds a voice under the key, and none if not.
pub proof fn lemma_unload_silences(table: VoiceTable, channel: u8, pitch: u8)
    requires
        table_wf(table),
        valid_channel(channel),
    ensures
        sounding(all_offs(table, LAST_CHANNEL as int), channel, pitch) == -held(
            table,
            channel,
            pitch,
        ),
{
    lemma_sounding_all_offs(table, LAST_CHANNEL as int, channel, pitch);
}

/// What the extension owns while it is loaded.
pub struct Extension {
    capabilities: CapabilityTable,
    notes: NoteManager,
    running: bool,
    last_stamp: u64,
}

impl Extension {
    /// Whether the extension is loaded.
    pub closed spec fn running(&self) -> bool {
        self.running
    }

    /// The voices that sound.
    pub closed spec fn voices(&self) -> VoiceTable {
        self.notes@
    }

    /// The capabilities that the host offers.
    pub closed spec fn offered(&self) -> Set<Capability> {
        self.capabilities@
    }

    /// The last stamp that was handed out to a note.
    pub closed spec fn last_stamp(&self) -> u64 {
        self.last_stamp
    }

    /// The invariant of the extension: the voices are well formed, none
    /// carries a stamp later than the last one handed out, and none sounds
    /// once the extension is unloaded.
    pub open spec fn wf(&self) -> bool {
        &&& table_wf(self.voices())
        &&& forall|key: (u8, u8)| #[trigger]
            self.voices().contains_key(key) ==> self.voices()[key].start_time
                <= self.last_stamp()
        &&& !self.running() ==> self.voices() == VoiceTable::empty()
    }

    /// Loads the extension. `found` reports the lookup of the capabilities,
    /// as [`initialize_api`] takes it. Nothing sounds yet.
    pub fn on_load(found: &Vec<bool>) -> (extension: Self)
        ensures
            extension.wf(),
            extension.running(),
            extension.voices() == VoiceTable::empty(),
            extension.last_stamp() == 0,
            forall|capability: Capability|
                extension.offered().contains(capability) <==> capability.ordinal() < found.len()
                    && found[capability.ordinal()],
    {
        Extension {
            capabilities: initialize_api(found),
            notes: NoteManager::new(),
            running: true,
            last_stamp: 0,
        }
    }

    /// Unloads the extension: every voice is switched off, by rising channel
    /// and pitch, and the note-off messages are returned in that order. From
    /// here on the extension plays nothing and its timers do nothing.
    pub fn on_unload(&mut self) -> (midi: Vec<MidiMessage>)
        requires
            old(self).wf(),
        ensures
            final(self).wf(),
            !final(self).running(),
            final(self).voices() == VoiceTable::empty(),
            final(self).offered() == old(self).offered(),
            final(self).last_stamp() == old(self).last_stamp(),
            midi@ == all_offs(old(self).voices(), LAST_CHANNEL as int),
    {
        let mut midi: Vec<MidiMessage> = Vec::new();
        let mut channel: u8 = FIRST_CHANNEL;
        while channel <= LAST_CHANNEL
            invariant
                FIRST_CHANNEL <= channel <= LAST_CHANNEL + 1,
                table_wf(old(self).voices()),
                self.notes.wf(),
                self.capabilities == old(self).capabilities,
                self.last_stamp == old(self).last_stamp,
                self.notes@ == without_channels(old(self).voices(), channel - 1),
                midi@ == all_offs(old(self).voices(), channel - 1),
            decreases LAST_CHANNEL + 1 - channel,
        {
            let ghost before = self.notes@;
            let mut offs = self.notes.stop_all_notes_on_channel(channel);
            proof {
                lemma_offs_of_one_channel(
                    before,
                    old(self).voices(),
                    channel,
                    MAX_DATA + 1,
                );
            }
            midi.append(&mut offs);
            channel += 1;
        }
        self.running = false;
        assert(self.notes@ =~= VoiceTable::empty());
        midi
    }

    /// Whether the extension is loaded.
    pub fn is_running(&self) -> (running: bool)
        ensures
            running == self.running(),
    {
        self.running
    }

    /// The capability table.
    pub fn capabilities(&self) -> (table: &CapabilityTable)
        ensures
            table@ == self.offered(),
    {
        &self.capabilities
    }

    /// The number of voices that sound.
    pub fn active_note_count(&self) -> (count: usize)
        ensures
            count == self.voices().len(),
    {
        self.notes.active_note_count()
    }

    /// Plays the note of `request` when the clock reads `clock`, if the
    /// extension is loaded. The note is stamped with [`stamp_after`] of the
    /// last stamp and the clock, and played at that stamp as
    /// [`play_requested_note`] says. The stamp is later than that of every
    /// voice that sounded before, so the timer of a voice that this note
    /// replaces will find it replaced. After unload nothing is played,
    /// nothing changes and there is no outcome.
    pub fn play(&mut self, request: &NoteRequest, tracks: &Vec<TrackInput>, clock: u64) -> (outcome:
        Option<NoteOutcome>)
        requires
            old(self).wf(),
        ensures
            final(self).wf(),
            final(self).running() == old(self).running(),
            final(self).offered() == old(self).offered(),
            match outcome {
                Some(played) => {
                    &&& old(self).running()
                    &&& final(self).last_stamp() == stamp_after(old(self).last_stamp(), clock)
                    &&& played_as_requested(
                        old(self).voices(),
                        final(self).voices(),
                        request@,
                        tracks@,
                        final(self).last_stamp(),
                        played,
                    )
                    &&& old(self).last_stamp() < u64::MAX ==> forall|key: (u8, u8)| #[trigger]
                        old(self).voices().contains_key(key) ==> old(self).voices()[key].start_time
                            < final(self).last_stamp()
                },
                None => {
                    &&& !old(self).running()
                    &&& final(self).voices() == old(self).voices()
                    &&& final(self).last_stamp() == old(self).last_stamp()
                },
            },
    {
        if self.running {
            let stamp = next_stamp(self.last_stamp, clock);
            self.last_stamp = stamp;
            Some(play_requested_note(request, tracks, &mut self.notes, stamp))
        } else {
            None
        }
    }

    /// Switches off every voice of `midi_channel`, as
    /// [`NoteManager::stop_all_notes_on_channel`] says.
    pub fn stop_all_notes_on_channel(&mut self, midi_channel: u8) -> (midi: Vec<MidiMessage>)
        requires
            old(self).wf(),
        ensures
            final(self).wf(),
            final(self).running() == old(self).running(),
            final(self).offered() == old(self).offered(),
            final(self).last_stamp() == old(self).last_stamp(),
            final(self).voices() == stop_step(old(self).voices(), midi_channel).table,
            midi@ == stop_step(old(self).voices(), midi_channel).emitted,
    {
        let midi = self.notes.stop_all_notes_on_channel(midi_channel);
        assert(!self.running ==> self.notes@ =~= VoiceTable::empty());
        midi
    }

    /// Reports that the timer of `scheduled` has expired, as
    /// [`NoteManager::on_timer`] says. After unload no voice is left, so
    /// nothing is returned.
    pub fn on_timer(&mut self, scheduled: &ActiveNote) -> (off: Option<MidiMessage>)
        requires
            old(self).wf(),
        ensures
            final(self).wf(),
            final(self).running() == old(self).running(),
            final(self).offered() == old(self).offered(),
            final(self).last_stamp() == old(self).last_stamp(),
            final(self).voices() == timer_step(old(self).voices(), *scheduled).table,
            off == if timer_is_current(old(self).voices(), *scheduled) {
                Some(note_off_message(scheduled.midi_channel, scheduled.note))
            } else {
                None
            },
            !old(self).running() ==> off.is_none() && final(self).voices() == old(self).voices(),
    {
        self.notes.on_timer(scheduled)
    }
}

} // verus!
