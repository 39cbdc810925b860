use renardo_ext::reaper::midi::note_manager::{
    init_note_manager, next_stamp, note_off, note_on, ActiveNote, MidiMessage, NoteManager,
};

fn on(status: u8, note: u8, velocity: u8) -> MidiMessage {
    MidiMessage { status, data1: note, data2: velocity }
}

#[test]
fn new_manager_is_empty() {
    assert_eq!(NoteManager::new().active_note_count(), 0);
    assert_eq!(init_note_manager().active_note_count(), 0);
}

#[test]
fn note_on_and_off_status_bytes() {
    assert_eq!(note_on(1, 60, 100), on(0x90, 60, 100));
    assert_eq!(note_on(16, 0, 127), on(0x9F, 0, 127));
    assert_eq!(note_on(10, 36, 1), on(0x99, 36, 1));
    assert_eq!(note_off(1, 60), on(0x80, 60, 0));
    assert_eq!(note_off(16, 127), on(0x8F, 127, 0));
}

#[test]
fn play_on_a_silent_key_emits_one_note_on() {
    let mut m = NoteManager::new();
    let out = m.play_note(1, 60, 100, 500, 1000);
    assert_eq!(out.midi, vec![on(0x90, 60, 100)]);
    assert_eq!(
        out.scheduled,
        ActiveNote { midi_channel: 1, note: 60, velocity: 100, start_time: 1000, duration_ms: 500 }
    );
    assert_eq!(m.active_note_count(), 1);
}

#[test]
fn play_on_a_sounding_key_cuts_it_off_first() {
    let mut m = NoteManager::new();
    m.play_note(3, 64, 90, 500, 1);
    let out = m.play_note(3, 64, 50, 200, 2);
    assert_eq!(out.midi, vec![on(0x82, 64, 0), on(0x92, 64, 50)]);
    assert_eq!(m.active_note_count(), 1);
}

#[test]
fn repeated_play_keeps_one_voice_per_key() {
    let mut m = NoteManager::new();
    let mut ons = 0;
    let mut offs = 0;
    for now in 0..50u64 {
        let out = m.play_note(5, 72, 100, 10, now);
        for message in out.midi {
            if message.status == 0x94 {
                ons += 1;
            } else {
                assert_eq!(message.status, 0x84);
                offs += 1;
            }
        }
        assert_eq!(m.active_note_count(), 1);
        assert_eq!(ons - offs, 1);
    }
}

#[test]
fn different_keys_sound_together() {
    let mut m = NoteManager::new();
    m.play_note(1, 60, 100, 10, 0);
    m.play_note(1, 61, 100, 10, 0);
    m.play_note(2, 60, 100, 10, 0);
    assert_eq!(m.active_note_count(), 3);
}

#[test]
fn pitch_and_velocity_are_clamped() {
    let mut m = NoteManager::new();
    let out = m.play_note(1, 200, 255, 10, 0);
    assert_eq!(out.midi, vec![on(0x90, 127, 127)]);
    assert_eq!(out.scheduled.note, 127);
    assert_eq!(out.scheduled.velocity, 127);
    let again = m.play_note(1, 127, 1, 10, 1);
    assert_eq!(again.midi, vec![on(0x80, 127, 0), on(0x90, 127, 1)]);
}

#[test]
fn timer_switches_its_own_note_off() {
    let mut m = NoteManager::new();
    let out = m.play_note(2, 40, 100, 50, 7);
    assert_eq!(m.on_timer(&out.scheduled), Some(on(0x81, 40, 0)));
    assert_eq!(m.active_note_count(), 0);
    assert_eq!(m.on_timer(&out.scheduled), None);
}

#[test]
fn stale_timer_does_nothing() {
    let mut m = NoteManager::new();
    let first = m.play_note(1, 60, 100, 100, 0);
    let second = m.play_note(1, 60, 100, 50, 10);
    assert_eq!(second.midi, vec![on(0x80, 60, 0), on(0x90, 60, 100)]);
    // The timer of the second note expires 60 ms after the first call.
    assert_eq!(m.on_timer(&second.scheduled), Some(on(0x80, 60, 0)));
    assert_eq!(m.active_note_count(), 0);
    // The timer of the first note expires 100 ms after the first call.
    assert_eq!(m.on_timer(&first.scheduled), None);
    assert_eq!(m.active_note_count(), 0);
}

#[test]
fn stale_timer_leaves_the_newer_note_sounding() {
    let mut m = NoteManager::new();
    let first = m.play_note(1, 60, 100, 100, 0);
    let second = m.play_note(1, 60, 100, 500, 10);
    assert_eq!(m.on_timer(&first.scheduled), None);
    assert_eq!(m.active_note_count(), 1);
    assert_eq!(m.on_timer(&second.scheduled), Some(on(0x80, 60, 0)));
    assert_eq!(m.active_note_count(), 0);
}

#[test]
fn timer_for_an_unknown_key_does_nothing() {
    let mut m = NoteManager::new();
    m.play_note(1, 60, 100, 100, 0);
    let stranger =
        ActiveNote { midi_channel: 0, note: 60, velocity: 1, start_time: 0, duration_ms: 1 };
    assert_eq!(m.on_timer(&stranger), None);
    let other =
        ActiveNote { midi_channel: 200, note: 250, velocity: 1, start_time: 0, duration_ms: 1 };
    assert_eq!(m.on_timer(&other), None);
    assert_eq!(m.active_note_count(), 1);
}

#[test]
fn stop_all_switches_off_one_channel_by_rising_pitch() {
    let mut m = NoteManager::new();
    m.play_note(4, 70, 100, 10, 0);
    m.play_note(4, 12, 100, 10, 1);
    m.play_note(5, 12, 100, 10, 2);
    m.play_note(4, 127, 100, 10, 3);
    m.play_note(4, 0, 100, 10, 4);
    let offs = m.stop_all_notes_on_channel(4);
    assert_eq!(offs, vec![on(0x83, 0, 0), on(0x83, 12, 0), on(0x83, 70, 0), on(0x83, 127, 0)]);
    assert_eq!(m.active_note_count(), 1);
    assert_eq!(m.stop_all_notes_on_channel(4), vec![]);
    assert_eq!(m.stop_all_notes_on_channel(5), vec![on(0x84, 12, 0)]);
    assert_eq!(m.active_note_count(), 0);
}

#[test]
fn stop_all_on_a_channel_that_is_none_does_nothing() {
    let mut m = NoteManager::new();
    m.play_note(1, 60, 100, 10, 0);
    assert_eq!(m.stop_all_notes_on_channel(0), vec![]);
    assert_eq!(m.stop_all_notes_on_channel(17), vec![]);
    assert_eq!(m.stop_all_notes_on_channel(255), vec![]);
    assert_eq!(m.active_note_count(), 1);
}

#[test]
fn timer_after_stop_all_does_nothing() {
    let mut m = NoteManager::new();
    let out = m.play_note(9, 33, 100, 10, 0);
    assert_eq!(m.stop_all_notes_on_channel(9), vec![on(0x88, 33, 0)]);
    assert_eq!(m.on_timer(&out.scheduled), None);
}

#[test]
fn stamps_rise_strictly() {
    assert_eq!(next_stamp(0, 0), 1);
    assert_eq!(next_stamp(0, 5), 5);
    assert_eq!(next_stamp(5, 5), 6);
    assert_eq!(next_stamp(5, 3), 6);
    assert_eq!(next_stamp(5, 6), 6);
    assert_eq!(next_stamp(u64::MAX - 1, 0), u64::MAX);
    assert_eq!(next_stamp(u64::MAX - 1, u64::MAX), u64::MAX);
    assert_eq!(next_stamp(u64::MAX, 0), u64::MAX);
    assert_eq!(next_stamp(u64::MAX, u64::MAX), u64::MAX);
    let mut last = 10;
    for clock in [3, 3, 11, 11, 12, 0, 100] {
        let stamp = next_stamp(last, clock);
        assert!(stamp > last);
        last = stamp;
    }
}

#[test]
fn equal_stamps_would_let_an_old_timer_switch_a_new_note_off() {
    let mut m = NoteManager::new();
    let first = m.play_note(1, 60, 100, 100, 7);
    m.play_note(1, 60, 100, 50, 7);
    assert_eq!(m.on_timer(&first.scheduled), Some(on(0x80, 60, 0)));
}
