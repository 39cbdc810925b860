use renardo_ext::osc::message::{Message, OscArg};
use renardo_ext::reaper::command::Command;
use renardo_ext::reaper::midi::note_manager::{ActiveNote, MidiMessage, NoteManager};
use renardo_ext::reaper::midi::{
    channel_of_input, find_track_midi_channel, handle_play_note, needs_tracks,
    play_requested_note, NoteRequest, NoteTarget, TrackInput,
};

fn s(text: &str) -> OscArg {
    OscArg::String(text.to_string())
}

fn note(args: Vec<OscArg>) -> Message {
    Message { addr: "/note".to_string(), args }
}

fn response(args: Vec<OscArg>) -> Message {
    Message { addr: "/note/response".to_string(), args }
}

fn track(name: &str, rec_input: i32) -> TrackInput {
    TrackInput { name: Some(name.to_string()), rec_input }
}

fn on_channel(channel: i32) -> NoteRequest {
    NoteRequest { target: NoteTarget::Channel(channel), note: 60, velocity: 100, duration_ms: 250 }
}

#[test]
fn play_note_on_channel_17_is_refused() {
    let command = handle_play_note(&note(vec![
        OscArg::Int(17),
        OscArg::Int(60),
        OscArg::Int(100),
        OscArg::Int(250),
    ]));
    let request = match command {
        Command::PlayNote(request) => request,
        other => panic!("unexpected {:?}", other),
    };
    let mut manager = NoteManager::new();
    let out = play_requested_note(&request, &vec![], &mut manager, 0);
    assert_eq!(out.midi, vec![]);
    assert_eq!(out.scheduled, None);
    assert_eq!(manager.active_note_count(), 0);
    assert_eq!(out.reply, response(vec![s("error"), s("Invalid MIDI channel 17")]));
}

#[test]
fn channels_outside_one_to_sixteen_are_refused() {
    for channel in [0, -1, 17, 255, 256, i32::MIN, i32::MAX] {
        let mut manager = NoteManager::new();
        let out = play_requested_note(&on_channel(channel), &vec![], &mut manager, 0);
        assert_eq!(out.midi, vec![]);
        assert_eq!(out.scheduled, None);
        assert_eq!(
            out.reply,
            response(vec![s("error"), s(&format!("Invalid MIDI channel {}", channel))])
        );
    }
}

#[test]
fn channels_one_to_sixteen_are_played() {
    for channel in 1..=16 {
        let mut manager = NoteManager::new();
        let out = play_requested_note(&on_channel(channel), &vec![], &mut manager, 5);
        assert_eq!(
            out.midi,
            vec![MidiMessage { status: 0x90 | (channel as u8 - 1), data1: 60, data2: 100 }]
        );
        assert_eq!(
            out.scheduled,
            Some(ActiveNote {
                midi_channel: channel as u8,
                note: 60,
                velocity: 100,
                start_time: 5,
                duration_ms: 250
            })
        );
        assert_eq!(
            out.reply,
            response(vec![
                s("success"),
                OscArg::Int(channel),
                OscArg::Int(60),
                OscArg::Int(100),
                OscArg::Int(250)
            ])
        );
        assert_eq!(manager.active_note_count(), 1);
    }
}

#[test]
fn request_takes_defaults_for_missing_places() {
    assert_eq!(
        handle_play_note(&note(vec![OscArg::Int(2)])),
        Command::PlayNote(NoteRequest {
            target: NoteTarget::Channel(2),
            note: 60,
            velocity: 100,
            duration_ms: 1000
        })
    );
    assert_eq!(
        handle_play_note(&note(vec![s("lead"), s("c4"), OscArg::Float(0), OscArg::Bool(true)])),
        Command::PlayNote(NoteRequest {
            target: NoteTarget::Track("lead".to_string()),
            note: 60,
            velocity: 100,
            duration_ms: 1000
        })
    );
}

#[test]
fn request_clamps_pitch_and_velocity() {
    let read = |n: i32, v: i32| match handle_play_note(&note(vec![
        OscArg::Int(1),
        OscArg::Int(n),
        OscArg::Int(v),
        OscArg::Int(-5),
    ])) {
        Command::PlayNote(r) => (r.note, r.velocity, r.duration_ms),
        other => panic!("unexpected {:?}", other),
    };
    assert_eq!(read(0, 127), (0, 127, -5));
    assert_eq!(read(-1, 128), (0, 127, -5));
    assert_eq!(read(300, -300), (127, 0, -5));
    assert_eq!(read(i32::MAX, i32::MIN), (127, 0, -5));
    assert_eq!(read(64, 1), (64, 1, -5));
}

#[test]
fn request_without_a_target_asks_for_nothing() {
    assert_eq!(handle_play_note(&note(vec![])), Command::Ignore);
    assert_eq!(handle_play_note(&note(vec![s("")])), Command::Ignore);
    assert_eq!(handle_play_note(&note(vec![OscArg::Float(1), OscArg::Int(60)])), Command::Ignore);
    assert_eq!(handle_play_note(&note(vec![OscArg::Bool(true)])), Command::Ignore);
}

#[test]
fn only_a_track_target_needs_the_tracks() {
    assert!(!needs_tracks(&on_channel(1)));
    assert!(needs_tracks(&NoteRequest {
        target: NoteTarget::Track("lead".to_string()),
        note: 1,
        velocity: 1,
        duration_ms: 1
    }));
}

#[test]
fn record_input_names_a_channel() {
    assert_eq!(channel_of_input(4096), None);
    assert_eq!(channel_of_input(4097), Some(1));
    assert_eq!(channel_of_input(4096 + 16), Some(16));
    assert_eq!(channel_of_input(4096 + 17), None);
    assert_eq!(channel_of_input(4096 + 31), None);
    assert_eq!(channel_of_input(6113), Some(1));
    assert_eq!(channel_of_input(6112 + 10), Some(10));
    assert_eq!(channel_of_input(4095), None);
    assert_eq!(channel_of_input(1), None);
    assert_eq!(channel_of_input(0), None);
    assert_eq!(channel_of_input(-1), None);
    assert_eq!(channel_of_input(i32::MIN), None);
    assert_eq!(channel_of_input(i32::MAX), None);
    assert_eq!(channel_of_input(i32::MAX - 15), Some(16));
}

#[test]
fn track_is_found_by_name() {
    let tracks = vec![
        track("drums", 4096 + 10),
        TrackInput { name: None, rec_input: 4097 },
        track("lead", 0),
        track("lead", 4096 + 3),
        track("lead", 4096 + 4),
    ];
    assert_eq!(find_track_midi_channel("drums", &tracks), Some(10));
    assert_eq!(find_track_midi_channel("lead", &tracks), Some(3));
    assert_eq!(find_track_midi_channel("bass", &tracks), None);
    assert_eq!(find_track_midi_channel("", &tracks), None);
    assert_eq!(find_track_midi_channel("lead", &vec![]), None);
    assert_eq!(find_track_midi_channel("lead", &vec![track("lead", 4096)]), None);
}

#[test]
fn note_on_a_track_is_played_on_its_channel() {
    let tracks = vec![track("drums", 4096 + 10), track("lead", 6112 + 2)];
    let request = NoteRequest {
        target: NoteTarget::Track("lead".to_string()),
        note: 72,
        velocity: 90,
        duration_ms: 125,
    };
    let mut manager = NoteManager::new();
    let out = play_requested_note(&request, &tracks, &mut manager, 11);
    assert_eq!(out.midi, vec![MidiMessage { status: 0x91, data1: 72, data2: 90 }]);
    assert_eq!(
        out.reply,
        response(vec![s("success"), s("lead"), OscArg::Int(72), OscArg::Int(90), OscArg::Int(125)])
    );
    let again = play_requested_note(&request, &tracks, &mut manager, 12);
    assert_eq!(
        again.midi,
        vec![
            MidiMessage { status: 0x81, data1: 72, data2: 0 },
            MidiMessage { status: 0x91, data1: 72, data2: 90 }
        ]
    );
    assert_eq!(manager.active_note_count(), 1);
}

#[test]
fn note_on_an_unknown_track_is_refused() {
    let request = NoteRequest {
        target: NoteTarget::Track("ghost".to_string()),
        note: 72,
        velocity: 90,
        duration_ms: 125,
    };
    let mut manager = NoteManager::new();
    manager.play_note(1, 72, 1, 1, 0);
    let out = play_requested_note(&request, &vec![track("lead", 4097)], &mut manager, 1);
    assert_eq!(out.midi, vec![]);
    assert_eq!(out.scheduled, None);
    assert_eq!(out.reply, response(vec![s("error"), s("Track 'ghost' not found")]));
    assert_eq!(manager.active_note_count(), 1);
}

#[test]
fn negative_duration_wraps_to_a_long_timer() {
    let mut manager = NoteManager::new();
    let mut request = on_channel(1);
    request.duration_ms = -1;
    let out = play_requested_note(&request, &vec![], &mut manager, 0);
    assert_eq!(out.scheduled.unwrap().duration_ms, u64::MAX);
    request.duration_ms = i32::MIN;
    let out = play_requested_note(&request, &vec![], &mut manager, 1);
    assert_eq!(out.scheduled.unwrap().duration_ms, i32::MIN as u64);
    assert_eq!(out.reply.args[4], OscArg::Int(i32::MIN));
    request.duration_ms = 0;
    let out = play_requested_note(&request, &vec![], &mut manager, 2);
    assert_eq!(out.scheduled.unwrap().duration_ms, 0);
}

#[test]
fn reply_repeats_what_was_played() {
    let mut manager = NoteManager::new();
    let request =
        NoteRequest { target: NoteTarget::Channel(1), note: 200, velocity: 255, duration_ms: 1 };
    let out = play_requested_note(&request, &vec![], &mut manager, 0);
    assert_eq!(out.midi, vec![MidiMessage { status: 0x90, data1: 127, data2: 127 }]);
    assert_eq!(out.reply.args[2], OscArg::Int(127));
    assert_eq!(out.reply.args[3], OscArg::Int(127));
}
