//! The voices that sound, and when each is switched on and off.
//!
//! A voice is keyed by its MIDI channel (1 to 16, as the peer writes it) and
//! its pitch (0 to 127). The manager holds at most one voice per key. It
//! performs no output and reads no clock: every operation returns the MIDI
//! messages to emit, in order, and takes the current time as a stamp. The
//! caller runs a timer per played note and reports its expiry with
//! [`NoteManager::on_timer`]; a timer whose note has been replaced in the
//! meantime finds another stamp and does nothing.

use std::collections::HashMap;
use vstd::prelude::*;

verus! {

/// The lowest channel, as the peer counts them.
pub const FIRST_CHANNEL: u8 = 1;

/// The highest channel, as the peer counts them.
pub const LAST_CHANNEL: u8 = 16;

/// The largest pitch and the largest velocity of a MIDI note message.
pub const MAX_DATA: u8 = 127;

/// A three-byte MIDI channel message.
#[derive(Clone, Copy, Debug, PartialEq, Eq, Structural)]
pub struct MidiMessage {
    pub status: u8,
    pub data1: u8,
    pub data2: u8,
}

/// A voice that sounds.
#[derive(Clone, Copy, Debug, PartialEq, Eq, Structural)]
pub struct ActiveNote {
    pub midi_channel: u8,
    pub note: u8,
    pub velocity: u8,
    /// The stamp of the call that switched the voice on.
    pub start_time: u64,
    pub duration_ms: u64,
}

/// The voices by key: channel first, pitch second.
pub type VoiceTable = Map<(u8, u8), ActiveNote>;

/// A pitch or a velocity brought into the range of a MIDI data byte.
pub open spec fn clamp_data(value: u8) -> u8 {
    if value > MAX_DATA {
        MAX_DATA
    } else {
        value
    }
}

/// Whether `channel` is one of the sixteen channels.
pub open spec fn valid_channel(channel: u8) -> bool {
    FIRST_CHANNEL <= channel <= LAST_CHANNEL
}

/// The note-on message for a voice: status `0x90` with the zero-based
/// channel in its low bits, then pitch and velocity.
pub open spec fn note_on_message(channel: u8, note: u8, velocity: u8) -> MidiMessage {
    MidiMessage { status: 0x90u8 | ((channel - 1) as u8), data1: note, data2: velocity }
}

/// The note-off message for a voice: status `0x80` with the zero-based
/// channel in its low bits, then the pitch, and velocity 0.
pub open spec fn note_off_message(channel: u8, note: u8) -> MidiMessage {
    MidiMessage { status: 0x80u8 | ((channel - 1) as u8), data1: note, data2: 0 }
}

/// Every voice of the table sits under its own channel and pitch, and both
/// are in range.
pub open spec fn table_wf(table: VoiceTable) -> bool {
    &&& table.dom().finite()
    &&& forall|key: (u8, u8)| #[trigger]
        table.contains_key(key) ==> {
            &&& valid_channel(key.0)
            &&& key.1 <= MAX_DATA
            &&& table[key].midi_channel == key.0
            &&& table[key].note == key.1
        }
}

/// A table after one operation, and what the operation emits, in order.
pub struct Step {
    pub table: VoiceTable,
    pub emitted: Seq<MidiMessage>,
}

/// The voice that a call of `play_note` switches on.
pub open spec fn scheduled_note(
    channel: u8,
    note: u8,
    velocity: u8,
    duration_ms: u64,
    now: u64,
) -> ActiveNote {
    ActiveNote {
        midi_channel: channel,
        note: clamp_data(note),
        velocity: clamp_data(velocity),
        start_time: now,
        duration_ms,
    }
}

/// Playing a note: a voice that sounds under the same key is cut off first,
/// then the new voice is switched on and takes the key.
pub open spec fn play_step(
    table: VoiceTable,
    channel: u8,
    note: u8,
    velocity: u8,
    duration_ms: u64,
    now: u64,
) -> Step {
    let voice = scheduled_note(channel, note, velocity, duration_ms, now);
    let on = note_on_message(channel, voice.note, voice.velocity);
    Step {
        table: table.insert((channel, voice.note), voice),
        emitted: if table.contains_key((channel, voice.note)) {
            seq![note_off_message(channel, voice.note), on]
        } else {
            seq![on]
        },
    }
}

/// Whether the voice that sounds under the key of `scheduled` is the one
/// that the timer of `scheduled` was started for: it carries the same stamp.
pub open spec fn timer_is_current(table: VoiceTable, scheduled: ActiveNote) -> bool {
    let key = (scheduled.midi_channel, scheduled.note);
    table.contains_key(key) && table[key].start_time == scheduled.start_time
}

/// The expiry of the timer of `scheduled`: the voice is switched off if it
/// is still the one that the timer was started for, by its stamp. Otherwise
/// nothing changes and nothing is emitted.
pub open spec fn timer_step(table: VoiceTable, scheduled: ActiveNote) -> Step {
    let key = (scheduled.midi_channel, scheduled.note);
    if timer_is_current(table, scheduled) {
        Step {
            table: table.remove(key),
            emitted: seq![note_off_message(scheduled.midi_channel, scheduled.note)],
        }
    } else {
        Step { table, emitted: Seq::empty() }
    }
}

/// The note-off messages for the voices of `channel` with a pitch below
/// `bound`, by rising pitch.
pub open spec fn channel_offs(table: VoiceTable, channel: u8, bound: int) -> Seq<MidiMessage>
    decreases bound,
{
    if bound <= 0 {
        Seq::empty()
    } else if table.contains_key((channel, (bound - 1) as u8)) {
        channel_offs(table, channel, bound - 1).push(
            note_off_message(channel, (bound - 1) as u8),
        )
    } else {
        channel_offs(table, channel, bound - 1)
    }
}

/// The table without the voices of `channel` with a pitch below `bound`.
pub open spec fn without_channel(table: VoiceTable, channel: u8, bound: int) -> VoiceTable {
    Map::new(
        |key: (u8, u8)| table.contains_key(key) && !(key.0 == channel && key.1 < bound),
        |key: (u8, u8)| table[key],
    )
}

/// Stopping a channel: each of its voices is switched off, by rising pitch.
pub open spec fn stop_step(table: VoiceTable, channel: u8) -> Step {
    Step {
        table: without_channel(table, channel, MAX_DATA + 1),
        emitted: channel_offs(table, channel, MAX_DATA + 1),
    }
}

/// What `play_note` hands back: the messages to emit, in order, and the
/// voice to start a timer for.
#[derive(Debug, PartialEq, Eq)]
pub struct PlayOutcome {
    pub midi: Vec<MidiMessage>,
    pub scheduled: ActiveNote,
}

/// The number under which a key is stored.
spec fn code_of(key: (u8, u8)) -> u16 {
    (key.0 * 256 + key.1) as u16
}

/// The key that is stored under a number.
spec fn key_of(code: u16) -> (u8, u8) {
    ((code / 256) as u8, (code % 256) as u8)
}

/// The table that a store stands for.
spec fn table_of(store: Map<u16, ActiveNote>) -> VoiceTable {
    Map::new(|key: (u8, u8)| store.contains_key(code_of(key)), |key: (u8, u8)| store[code_of(key)])
}

proof fn lemma_table_insert(store: Map<u16, ActiveNote>, key: (u8, u8), voice: ActiveNote)
    ensures
        table_of(store.insert(code_of(key), voice)) == table_of(store).insert(key, voice),
{
}

proof fn lemma_table_remove(store: Map<u16, ActiveNote>, key: (u8, u8))
    ensures
        table_of(store.remove(code_of(key))) == table_of(store).remove(key),
{
}

proof fn lemma_table_len(store: Map<u16, ActiveNote>)
    requires
        store.dom().finite(),
    ensures
        table_of(store).dom().finite(),
        table_of(store).len() == store.len(),
{
    let decode = |code: u16| key_of(code);
    assert(store.dom().map(decode) =~= table_of(store).dom());
    vstd::set_lib::lemma_map_size(store.dom(), table_of(store).dom(), decode);
}

/// The stamp for a note that is played when the clock reads `clock` and
/// the last stamp handed out was `last`: the reading of the clock if it is
/// later than `last`, else the number after `last`. So stamps rise strictly,
/// even where the clock stands still or runs back; only at the largest
/// number can a stamp repeat.
pub open spec fn stamp_after(last: u64, clock: u64) -> u64 {
    if clock > last {
        clock
    } else if last < u64::MAX {
        (last + 1) as u64
    } else {
        last
    }
}

/// The next stamp: see [`stamp_after`].
pub fn next_stamp(last: u64, clock: u64) -> (stamp: u64)
    ensures
        stamp == stamp_after(last, clock),
        last < u64::MAX ==> stamp > last,
{
    if clock > last {
        clock
    } else if last < u64::MAX {
        last + 1
    } else {
        last
    }
}

/// The note-on message for `channel`, `note` and `velocity`.
pub fn note_on(channel: u8, note: u8, velocity: u8) -> (message: MidiMessage)
    requires
        valid_channel(channel),
    ensures
        message == note_on_message(channel, note, velocity),
{
    MidiMessage { status: 0x90u8 | (channel - 1), data1: note, data2: velocity }
}

/// The note-off message for `channel` and `note`.
pub fn note_off(channel: u8, note: u8) -> (message: MidiMessage)
    requires
        valid_channel(channel),
    ensures
        message == note_off_message(channel, note),
{
    MidiMessage { status: 0x80u8 | (channel - 1), data1: note, data2: 0 }
}

fn clamp(value: u8) -> (clamped: u8)
    ensures
        clamped == clamp_data(value),
{
    if value > MAX_DATA {
        MAX_DATA
    } else {
        value
    }
}

fn key_code(channel: u8, note: u8) -> (code: u16)
    ensures
        code == code_of((channel, note)),
{
    channel as u16 * 256 + note as u16
}

/// The voices that sound, one per key at most.
pub struct NoteManager {
    active_notes: HashMap<u16, ActiveNote>,
}

impl NoteManager {
    /// The voices by key.
    pub closed spec fn view(&self) -> VoiceTable {
        table_of(self.active_notes@)
    }

    /// The invariant of the manager: see [`table_wf`].
    pub open spec fn wf(&self) -> bool {
        table_wf(self@)
    }

    /// A manager in which nothing sounds.
    pub fn new() -> (manager: Self)
        ensures
            manager.wf(),
            manager@ == VoiceTable::empty(),
    {
        let manager = NoteManager { active_notes: HashMap::new() };
        manager
    }

    /// Plays `note` on `midi_channel` for `duration_ms` milliseconds.
    ///
    /// Pitch and velocity are clamped to 0..=127. If a voice sounds under
    /// the same channel and pitch, its note-off comes first; then the
    /// note-on of the new voice, which is stored with the stamp `now`. The
    /// caller emits the messages in order, starts a timer of `duration_ms`
    /// for the returned voice, and calls [`Self::on_timer`] with that voice
    /// when the timer expires.
    pub fn play_note(
        &mut self,
        midi_channel: u8,
        note: u8,
        velocity: u8,
        duration_ms: u64,
        now: u64,
    ) -> (outcome: PlayOutcome)
        requires
            old(self).wf(),
            valid_channel(midi_channel),
        ensures
            final(self).wf(),
            final(self)@ == play_step(
                old(self)@,
                midi_channel,
                note,
                velocity,
                duration_ms,
                now,
            ).table,
            outcome.midi@ == play_step(
                old(self)@,
                midi_channel,
                note,
                velocity,
                duration_ms,
                now,
            ).emitted,
            outcome.scheduled == scheduled_note(midi_channel, note, velocity, duration_ms, now),
            old(self)@.contains_key((midi_channel, clamp_data(note))) ==> outcome.midi@ == seq![
                note_off_message(midi_channel, clamp_data(note)),
                note_on_message(midi_channel, clamp_data(note), clamp_data(velocity)),
            ],
            !old(self)@.contains_key((midi_channel, clamp_data(note))) ==> outcome.midi@ == seq![
                note_on_message(midi_channel, clamp_data(note), clamp_data(velocity)),
            ],
    {
        let pitch = clamp(note);
        let scheduled = ActiveNote {
            midi_channel,
            note: pitch,
            velocity: clamp(velocity),
            start_time: now,
            duration_ms,
        };
        let code = key_code(midi_channel, pitch);
        let mut midi: Vec<MidiMessage> = Vec::new();
        if self.active_notes.contains_key(&code) {
            midi.push(note_off(midi_channel, pitch));
        }
        midi.push(note_on(midi_channel, pitch, scheduled.velocity));
        self.active_notes.insert(code, scheduled);
        proof {
            lemma_table_insert(old(self).active_notes@, (midi_channel, pitch), scheduled);
        }
        PlayOutcome { midi, scheduled }
    }

    /// Reports that the timer of `scheduled` has expired.
    ///
    /// If the voice under the key of `scheduled` still carries the stamp of
    /// `scheduled`, it is removed and its note-off is returned. If the key is
    /// free, or holds a voice that was played later, nothing changes and
    /// nothing is returned.
    pub fn on_timer(&mut self, scheduled: &ActiveNote) -> (off: Option<MidiMessage>)
        requires
            old(self).wf(),
        ensures
            final(self).wf(),
            final(self)@ == timer_step(old(self)@, *scheduled).table,
            off == if timer_is_current(old(self)@, *scheduled) {
                Some(note_off_message(scheduled.midi_channel, scheduled.note))
            } else {
                None
            },
            match off {
                Some(message) => timer_step(old(self)@, *scheduled).emitted == seq![message],
                None => timer_step(old(self)@, *scheduled).emitted == Seq::<MidiMessage>::empty(),
            },
    {
        let code = key_code(scheduled.midi_channel, scheduled.note);
        let current = match self.active_notes.get(&code) {
            Some(voice) => voice.start_time == scheduled.start_time,
            None => false,
        };
        if current {
            assert(old(self)@.contains_key((scheduled.midi_channel, scheduled.note)));
            self.active_notes.remove(&code);
            proof {
                lemma_table_remove(
                    old(self).active_notes@,
                    (scheduled.midi_channel, scheduled.note),
                );
            }
            Some(note_off(scheduled.midi_channel, scheduled.note))
        } else {
            None
        }
    }

    /// Switches off every voice of `midi_channel`, by rising pitch, and
    /// returns the note-off messages in that order. Voices of other channels
    /// stay as they are.
    pub fn stop_all_notes_on_channel(&mut self, midi_channel: u8) -> (midi: Vec<MidiMessage>)
        requires
            old(self).wf(),
        ensures
            final(self).wf(),
            final(self)@ == stop_step(old(self)@, midi_channel).table,
            midi@ == stop_step(old(self)@, midi_channel).emitted,
            forall|key: (u8, u8)|
                final(self)@.contains_key(key) <==> old(self)@.contains_key(key) && key.0
                    != midi_channel,
            forall|key: (u8, u8)| final(self)@.contains_key(key) ==> final(self)@[key] == old(
                self,
            )@[key],
    {
        let mut midi: Vec<MidiMessage> = Vec::new();
        let mut note: u8 = 0;
        while note <= MAX_DATA
            invariant
                note <= MAX_DATA + 1,
                old(self).wf(),
                self@ == without_channel(old(self)@, midi_channel, note as int),
                midi@ == channel_offs(old(self)@, midi_channel, note as int),
            decreases MAX_DATA + 1 - note,
        {
            let code = key_code(midi_channel, note);
            let ghost before = self.active_notes@;
            if self.active_notes.contains_key(&code) {
                assert(self@.contains_key((midi_channel, note)));
                midi.push(note_off(midi_channel, note));
                self.active_notes.remove(&code);
                proof {
                    lemma_table_remove(before, (midi_channel, note));
                }
            } else {
                assert(!self@.contains_key((midi_channel, note)));
            }
            note += 1;
        }
        proof {
            lemma_table_len(self.active_notes@);
        }
        midi
    }

    /// The number of voices that sound.
    pub fn active_note_count(&self) -> (count: usize)
        ensures
            count == self@.len(),
    {
        proof {
            lemma_table_len(self.active_notes@);
        }
        self.active_notes.len()
    }
}

/// The manager that an extension starts with: nothing sounds.
pub fn init_note_manager() -> (manager: NoteManager)
    ensures
        manager.wf(),
        manager@ == VoiceTable::empty(),
{
    NoteManager::new()
}

} // verus!
