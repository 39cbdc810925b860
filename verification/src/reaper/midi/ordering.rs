//! What holds of every run of the note manager: how the emitted messages
//! pair up, and what a timer does that comes too late.

use super::note_manager::{
    channel_offs, note_off_message, note_on_message, play_step, scheduled_note, stamp_after,
    stop_step, table_wf, timer_is_current, timer_step, valid_channel, without_channel,
    ActiveNote, MidiMessage, Step, VoiceTable, MAX_DATA,
};
use vstd::prelude::*;

verus! {

/// One operation on the manager.
pub enum NoteOp {
    /// A call of `play_note`.
    Play { channel: u8, note: u8, velocity: u8, duration_ms: u64, now: u64 },
    /// A call of `on_timer`.
    Timer { scheduled: ActiveNote },
    /// A call of `stop_all_notes_on_channel`.
    StopChannel { channel: u8 },
}

/// Whether the manager accepts the operation: a played note names one of
/// the sixteen channels.
pub open spec fn op_allowed(op: NoteOp) -> bool {
    match op {
        NoteOp::Play { channel, .. } => valid_channel(channel),
        _ => true,
    }
}

/// The table after `op`, and what `op` emits.
pub open spec fn op_step(table: VoiceTable, op: NoteOp) -> Step {
    match op {
        NoteOp::Play { channel, note, velocity, duration_ms, now } => play_step(
            table,
            channel,
            note,
            velocity,
            duration_ms,
            now,
        ),
        NoteOp::Timer { scheduled } => timer_step(table, scheduled),
        NoteOp::StopChannel { channel } => stop_step(table, channel),
    }
}

/// The table after the operations `ops` on a new manager, and everything
/// they emit, in order.
pub open spec fn run(ops: Seq<NoteOp>) -> Step
    decreases ops.len(),
{
    if ops.len() == 0 {
        Step { table: VoiceTable::empty(), emitted: Seq::empty() }
    } else {
        let before = run(ops.drop_last());
        let last = op_step(before.table, ops.last());
        Step { table: last.table, emitted: before.emitted + last.emitted }
    }
}

/// Whether `message` switches on the voice of `channel` and `pitch`.
pub open spec fn is_on_for(message: MidiMessage, channel: u8, pitch: u8) -> bool {
    message.status == note_on_message(channel, pitch, 0).status && message.data1 == pitch
}

/// Whether `message` switches off the voice of `channel` and `pitch`.
pub open spec fn is_off_for(message: MidiMessage, channel: u8, pitch: u8) -> bool {
    message.status == note_off_message(channel, pitch).status && message.data1 == pitch
}

/// What one message adds to the number of voices that sound under a key.
pub open spec fn weight(message: MidiMessage, channel: u8, pitch: u8) -> int {
    if is_on_for(message, channel, pitch) {
        1
    } else if is_off_for(message, channel, pitch) {
        -1
    } else {
        0
    }
}

/// The note-ons less the note-offs that `emitted` holds for the voice of
/// `channel` and `pitch`: the number of voices that a listener hears under
/// that key after these messages.
pub open spec fn sounding(emitted: Seq<MidiMessage>, channel: u8, pitch: u8) -> int
    decreases emitted.len(),
{
    if emitted.len() == 0 {
        0
    } else {
        sounding(emitted.drop_last(), channel, pitch) + weight(emitted.last(), channel, pitch)
    }
}

/// 1 if the table holds a voice under the key, else 0.
pub open spec fn held(table: VoiceTable, channel: u8, pitch: u8) -> int {
    if table.contains_key((channel, pitch)) {
        1
    } else {
        0
    }
}

proof fn lemma_status_bytes(a: u8, b: u8)
    requires
        valid_channel(a),
        valid_channel(b),
    ensures
        note_on_message(a, 0, 0).status != note_off_message(b, 0).status,
        a != b ==> note_on_message(a, 0, 0).status != note_on_message(b, 0, 0).status,
        a != b ==> note_off_message(a, 0).status != note_off_message(b, 0).status,
{
    let x = (a - 1) as u8;
    let y = (b - 1) as u8;
    assert(x < 16 && y < 16 ==> (0x90u8 | x) != (0x80u8 | y)) by (bit_vector);
    assert(x < 16 && y < 16 && x != y ==> (0x90u8 | x) != (0x90u8 | y)) by (bit_vector);
    assert(x < 16 && y < 16 && x != y ==> (0x80u8 | x) != (0x80u8 | y)) by (bit_vector);
}

/// The count over two runs of messages is the sum of the counts over each.
pub proof fn lemma_sounding_concat(
    first: Seq<MidiMessage>,
    second: Seq<MidiMessage>,
    channel: u8,
    pitch: u8,
)
    ensures
        sounding(first + second, channel, pitch) == sounding(first, channel, pitch) + sounding(
            second,
            channel,
            pitch,
        ),
    decreases second.len(),
{
    if second.len() == 0 {
    } else {
        assert((first + second).drop_last() =~= first + second.drop_last());
        lemma_sounding_concat(first, second.drop_last(), channel, pitch);
    }
}

proof fn lemma_sounding_one(message: MidiMessage, channel: u8, pitch: u8)
    ensures
        sounding(seq![message], channel, pitch) == weight(message, channel, pitch),
{
    assert(seq![message].drop_last() =~= Seq::<MidiMessage>::empty());
    assert(sounding(Seq::<MidiMessage>::empty(), channel, pitch) == 0);
}

proof fn lemma_sounding_two(first: MidiMessage, second: MidiMessage, channel: u8, pitch: u8)
    ensures
        sounding(seq![first, second], channel, pitch) == weight(first, channel, pitch) + weight(
            second,
            channel,
            pitch,
        ),
{
    assert(seq![first, second].drop_last() =~= seq![first]);
    lemma_sounding_one(first, channel, pitch);
}

/// The note-offs of a stopped channel switch off each of its voices once,
/// and touch no voice of another channel.
pub proof fn lemma_sounding_offs(table: VoiceTable, stopped: u8, bound: int, channel: u8, pitch: u8)
    requires
        table_wf(table),
        valid_channel(channel),
        0 <= bound <= MAX_DATA + 1,
    ensures
        sounding(channel_offs(table, stopped, bound), channel, pitch) == if stopped == channel
            && pitch < bound {
            -held(table, channel, pitch)
        } else {
            0
        },
    decreases bound,
{
    if bound > 0 {
        lemma_sounding_offs(table, stopped, bound - 1, channel, pitch);
        let top = (bound - 1) as u8;
        if table.contains_key((stopped, top)) {
            let rest = channel_offs(table, stopped, bound - 1);
            let off = note_off_message(stopped, top);
            assert(rest.push(off).drop_last() =~= rest);
            lemma_status_bytes(stopped, channel);
            lemma_status_bytes(channel, stopped);
        }
    }
}

/// One operation keeps the table well formed, and changes the number of
/// voices that sound under a key exactly as it changes the table.
pub proof fn lemma_step_keeps_pairing(table: VoiceTable, op: NoteOp, channel: u8, pitch: u8)
    requires
        table_wf(table),
        op_allowed(op),
        valid_channel(channel),
    ensures
        table_wf(op_step(table, op).table),
        sounding(op_step(table, op).emitted, channel, pitch) == held(
            op_step(table, op).table,
            channel,
            pitch,
        ) - held(table, channel, pitch),
{
    match op {
        NoteOp::Play { channel: played, note, velocity, duration_ms, now } => {
            let voice = scheduled_note(played, note, velocity, duration_ms, now);
            let on = note_on_message(played, voice.note, voice.velocity);
            let off = note_off_message(played, voice.note);
            lemma_status_bytes(played, channel);
            lemma_status_bytes(channel, played);
            lemma_sounding_one(on, channel, pitch);
            lemma_sounding_two(off, on, channel, pitch);
        },
        NoteOp::Timer { scheduled } => {
            if timer_is_current(table, scheduled) {
                let off = note_off_message(scheduled.midi_channel, scheduled.note);
                lemma_status_bytes(scheduled.midi_channel, channel);
                lemma_status_bytes(channel, scheduled.midi_channel);
                lemma_sounding_one(off, channel, pitch);
            }
        },
        NoteOp::StopChannel { channel: stopped } => {
            lemma_sounding_offs(table, stopped, MAX_DATA + 1, channel, pitch);
            let after = without_channel(table, stopped, MAX_DATA + 1);
            vstd::set_lib::lemma_set_subset_finite(table.dom(), after.dom());
        },
    }
}

/// Voice uniqueness. After any operations on a new manager the table is
/// well formed, and for every key the emitted note-ons exceed the emitted
/// note-offs by one if the table holds a voice under the key and by none if
/// it does not. So at most one voice sounds per key, no voice is switched
/// off twice, and the table says exactly which voices sound.
pub proof fn lemma_one_voice_per_key(ops: Seq<NoteOp>, channel: u8, pitch: u8)
    requires
        forall|i: int| 0 <= i < ops.len() ==> op_allowed(#[trigger] ops[i]),
        valid_channel(channel),
    ensures
        table_wf(run(ops).table),
        sounding(run(ops).emitted, channel, pitch) == held(run(ops).table, channel, pitch),
        0 <= sounding(run(ops).emitted, channel, pitch) <= 1,
    decreases ops.len(),
{
    if ops.len() > 0 {
        let before = run(ops.drop_last());
        lemma_one_voice_per_key(ops.drop_last(), channel, pitch);
        lemma_step_keeps_pairing(before.table, ops.last(), channel, pitch);
        lemma_sounding_concat(
            before.emitted,
            op_step(before.table, ops.last()).emitted,
            channel,
            pitch,
        );
    }
}

/// Preemptive cutoff. Playing a key that sounds emits exactly two messages:
/// the note-off of that key, then the note-on of the new voice. Playing a
/// key that is silent emits the note-on alone.
pub proof fn lemma_cutoff_precedes_note_on(
    table: VoiceTable,
    channel: u8,
    note: u8,
    velocity: u8,
    duration_ms: u64,
    now: u64,
)
    ensures
        ({
            let voice = scheduled_note(channel, note, velocity, duration_ms, now);
            let emitted = play_step(table, channel, note, velocity, duration_ms, now).emitted;
            let on = note_on_message(channel, voice.note, voice.velocity);
            if table.contains_key((channel, voice.note)) {
                emitted == seq![note_off_message(channel, voice.note), on]
            } else {
                emitted == seq![on]
            }
        }),
{
}

/// Stale timers. When a key is played at stamp `first_now` and again at
/// another stamp `second_now`, the timer of the first call finds the voice
/// replaced: it changes nothing and emits nothing. The timer of the second
/// call removes the voice and emits its note-off.
pub proof fn lemma_stale_timer_does_nothing(
    table: VoiceTable,
    channel: u8,
    note: u8,
    first_velocity: u8,
    first_duration: u64,
    first_now: u64,
    second_velocity: u8,
    second_duration: u64,
    second_now: u64,
)
    requires
        first_now != second_now,
    ensures
        ({
            let first = play_step(table, channel, note, first_velocity, first_duration, first_now);
            let second = play_step(
                first.table,
                channel,
                note,
                second_velocity,
                second_duration,
                second_now,
            );
            let first_timer = scheduled_note(
                channel,
                note,
                first_velocity,
                first_duration,
                first_now,
            );
            let second_timer = scheduled_note(
                channel,
                note,
                second_velocity,
                second_duration,
                second_now,
            );
            &&& timer_step(second.table, first_timer) == Step {
                table: second.table,
                emitted: Seq::empty(),
            }
            &&& timer_step(second.table, second_timer) == Step {
                table: second.table.remove((channel, second_timer.note)),
                emitted: seq![note_off_message(channel, second_timer.note)],
            }
            &&& timer_step(timer_step(second.table, second_timer).table, first_timer).emitted
                == Seq::<MidiMessage>::empty()
        }),
{
}

/// Stale timers, with stamps from [`stamp_after`]. When a key is played
/// twice and each note takes its stamp from the last stamp and the clock,
/// the timer of the first note does nothing once the second is played,
/// whatever the clock read: the two stamps differ unless the first is
/// already the largest number.
pub proof fn lemma_stamped_notes_have_stale_timers(
    table: VoiceTable,
    channel: u8,
    note: u8,
    first_velocity: u8,
    first_duration: u64,
    second_velocity: u8,
    second_duration: u64,
    last: u64,
    first_clock: u64,
    second_clock: u64,
)
    requires
        stamp_after(last, first_clock) < u64::MAX,
    ensures
        ({
            let first_now = stamp_after(last, first_clock);
            let second_now = stamp_after(first_now, second_clock);
            let first = play_step(table, channel, note, first_velocity, first_duration, first_now);
            let second = play_step(
                first.table,
                channel,
                note,
                second_velocity,
                second_duration,
                second_now,
            );
            &&& second_now > first_now
            &&& timer_step(
                second.table,
                scheduled_note(channel, note, first_velocity, first_duration, first_now),
            ) == (Step { table: second.table, emitted: Seq::empty() })
        }),
{
}

/// A timer does nothing unless the voice under its key carries its stamp.
pub proof fn lemma_timer_needs_its_stamp(table: VoiceTable, scheduled: ActiveNote)
    ensures
        !timer_is_current(table, scheduled) ==> timer_step(table, scheduled) == (Step {
            table,
            emitted: Seq::empty(),
        }),
{
}

} // verus!
