use renardo_ext::osc::message::{Message, OscArg};
use renardo_ext::osc::router::{handle_osc_message, Route};
use renardo_ext::reaper::api::{
    capabilities, initialize_api, required_capabilities, served_command, Capability,
    CAPABILITY_COUNT,
};
use renardo_ext::reaper::command::Command;

fn message(addr: &str, args: Vec<OscArg>) -> Message {
    Message { addr: addr.to_string(), args }
}

fn unserved(addr: &str, symbol: &str) -> Command {
    Command::Reply(message(
        addr,
        vec![
            OscArg::String("error".to_string()),
            OscArg::String(format!("Host function not available: {}", symbol)),
        ],
    ))
}

#[test]
fn list_holds_every_capability_at_its_place() {
    let list = capabilities();
    assert_eq!(list.len(), CAPABILITY_COUNT);
    assert_eq!(list.len(), 26);
    for (place, capability) in list.iter().enumerate() {
        assert_eq!(capability.index(), place);
    }
    assert_eq!(list[0], Capability::ShowConsoleMsg);
    assert_eq!(list[25], Capability::UpdateTimeline);
}

#[test]
fn symbols_are_the_names_of_the_host() {
    assert_eq!(Capability::ShowConsoleMsg.symbol(), "ShowConsoleMsg");
    assert_eq!(Capability::MainOnCommand.symbol(), "Main_OnCommand");
    assert_eq!(Capability::StuffMidiMessage.symbol(), "StuffMIDIMessage");
    assert_eq!(Capability::TrackFxGetFxName.symbol(), "TrackFX_GetFXName");
    assert_eq!(Capability::GetTrackSendInfoValue.symbol(), "GetTrackSendInfo_Value");
    let mut names: Vec<&str> = capabilities().iter().map(|c| c.symbol()).collect();
    names.sort();
    names.dedup();
    assert_eq!(names.len(), CAPABILITY_COUNT);
}

#[test]
fn table_records_what_was_found() {
    let mut found = vec![false; CAPABILITY_COUNT];
    found[Capability::GetTrack.index()] = true;
    found[Capability::CountTracks.index()] = true;
    let table = initialize_api(&found);
    for capability in capabilities() {
        let expected = capability == Capability::GetTrack || capability == Capability::CountTracks;
        assert_eq!(table.has(capability), expected);
    }
}

#[test]
fn short_report_counts_the_rest_as_absent() {
    let table = initialize_api(&vec![true, true, true]);
    assert!(table.has(Capability::ShowConsoleMsg));
    assert!(table.has(Capability::EnumProjects));
    assert!(!table.has(Capability::MainOnCommand));
    assert!(!table.has(Capability::UpdateTimeline));
    let none = initialize_api(&vec![]);
    for capability in capabilities() {
        assert!(!none.has(capability));
    }
}

#[test]
fn route_is_served_where_all_it_needs_is_there() {
    let mut found = vec![false; CAPABILITY_COUNT];
    found[Capability::GetTrack.index()] = true;
    let table = initialize_api(&found);
    assert!(!table.serves(Route::GetTrackVolume));
    assert!(!table.serves(Route::GetTrackName));
    assert!(table.serves(Route::ScanTrack));
    assert!(table.serves(Route::PlayNote));
    assert!(table.serves(Route::AddFx));
    found[Capability::GetSetMediaTrackInfo.index()] = true;
    let table = initialize_api(&found);
    assert!(table.serves(Route::GetTrackVolume));
    assert!(table.serves(Route::SetTrackPan));
    assert!(table.serves(Route::SetTrackName));
    assert!(!table.serves(Route::GetTrackName));
    assert!(!table.serves(Route::AddTrack));
    assert!(!table.serves(Route::GetProjectName));
    assert!(!table.serves(Route::SetProjectName));
}

#[test]
fn everything_is_served_by_a_full_host() {
    let table = initialize_api(&vec![true; CAPABILITY_COUNT]);
    for route in [
        Route::GetProjectName,
        Route::SetProjectName,
        Route::AddTrack,
        Route::GetTrackName,
        Route::SetTrackName,
        Route::GetTrackVolume,
        Route::SetTrackVolume,
        Route::GetTrackPan,
        Route::SetTrackPan,
        Route::ScanTrack,
        Route::AddFx,
        Route::RemoveFx,
        Route::GetFxParam,
        Route::SetFxParam,
        Route::PlayNote,
    ] {
        assert!(table.serves(route));
    }
}

#[test]
fn required_capabilities_of_some_routes() {
    assert_eq!(
        required_capabilities(Route::AddTrack),
        vec![Capability::InsertTrackAtIndex, Capability::CountTracks, Capability::GetTrack]
    );
    assert_eq!(
        required_capabilities(Route::GetProjectName),
        vec![Capability::EnumProjects, Capability::GetProjectName]
    );
    assert_eq!(required_capabilities(Route::SetProjectName), vec![Capability::MainOnCommand]);
    assert_eq!(required_capabilities(Route::PlayNote), vec![]);
}

#[test]
fn first_missing_capability_is_named() {
    let mut found = vec![true; CAPABILITY_COUNT];
    let full = initialize_api(&found);
    assert_eq!(full.missing(Route::AddTrack), None);
    found[Capability::CountTracks.index()] = false;
    found[Capability::GetTrack.index()] = false;
    let table = initialize_api(&found);
    assert_eq!(table.missing(Route::AddTrack), Some(Capability::CountTracks));
    assert_eq!(table.missing(Route::GetTrackName), Some(Capability::GetTrack));
    assert_eq!(table.missing(Route::GetProjectName), None);
    assert_eq!(table.missing(Route::ScanTrack), None);
    found[Capability::InsertTrackAtIndex.index()] = false;
    assert_eq!(
        initialize_api(&found).missing(Route::AddTrack),
        Some(Capability::InsertTrackAtIndex)
    );
}

#[test]
fn add_track_on_a_host_without_track_functions_is_answered_with_an_error() {
    for lacking in [Capability::InsertTrackAtIndex, Capability::CountTracks, Capability::GetTrack] {
        let mut found = vec![true; CAPABILITY_COUNT];
        found[lacking.index()] = false;
        let table = initialize_api(&found);
        let dispatch = handle_osc_message(&message("/project/add_track", vec![]));
        assert_eq!(
            served_command(&table, dispatch),
            unserved("/project/add_track/response", lacking.symbol())
        );
    }
}

#[test]
fn unserved_routes_are_answered_under_their_own_addresses() {
    let table = initialize_api(&vec![]);
    let cases = [
        ("/project/name/get", "/project/name/response", "EnumProjects"),
        ("/project/name/set", "/project/name/set/response", "Main_OnCommand"),
        ("/track/name/get", "/track/name/get/response", "GetTrack"),
        ("/track/name/set", "/track/name/set/response", "GetTrack"),
        ("/track/volume/get", "/track/volume/get/response", "GetTrack"),
        ("/track/volume/set", "/track/volume/set/response", "GetTrack"),
        ("/track/pan/get", "/track/pan/get/response", "GetTrack"),
        ("/track/pan/set", "/track/pan/set/response", "GetTrack"),
    ];
    for (addr, response, symbol) in cases {
        let dispatch = handle_osc_message(&message(addr, vec![OscArg::Int(0)]));
        assert_eq!(served_command(&table, dispatch), unserved(response, symbol));
    }
    let mut found = vec![false; CAPABILITY_COUNT];
    found[Capability::GetTrack.index()] = true;
    let dispatch = handle_osc_message(&message("/track/volume/get", vec![OscArg::Int(0)]));
    assert_eq!(
        served_command(&initialize_api(&found), dispatch),
        unserved("/track/volume/get/response", "GetSetMediaTrackInfo")
    );
}

#[test]
fn served_routes_keep_their_command() {
    let table = initialize_api(&vec![true; CAPABILITY_COUNT]);
    let dispatch = handle_osc_message(&message("/track/volume/get", vec![OscArg::Int(2)]));
    assert_eq!(served_command(&table, dispatch), Command::GetTrackVolume { index: 2 });
    let none = initialize_api(&vec![]);
    let scan = handle_osc_message(&message("/track/scan", vec![OscArg::Int(2)]));
    assert_eq!(served_command(&none, scan), Command::ScanTrack { index: 2 });
    let unknown = handle_osc_message(&message("/nowhere", vec![]));
    assert_eq!(served_command(&none, unknown), Command::Ignore);
    let reserved = handle_osc_message(&message("/fx/add", vec![]));
    assert_eq!(served_command(&none, reserved), Command::Ignore);
}
