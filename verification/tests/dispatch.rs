use libman::command::Cmd;
use libman::control::{
    find_active, find_device_by_name, find_playlist_by_name, parse_on_off, parse_yes_no,
    repeat_decision, route_input, set_volume_decision, show_target, shuffle_decision,
    volume_target, DeviceInfo, PlaybackAction, RepeatDecision, RepeatMode, Route, Session,
    ShowTarget, ShuffleDecision, VolumeCommand,
};
use libman::handler::default_handlers;
use libman::playlist::{Playlist, PlaylistMeta};

fn meta(id: &str, name: &str) -> PlaylistMeta {
    PlaylistMeta {
        id: id.to_string(),
        uri: format!("spotify:playlist:{}", id),
        name: name.to_string(),
        owner: None,
    }
}

#[test]
fn blank_input_routes_to_toggle() {
    let handlers = default_handlers();
    assert_eq!(route_input(&handlers, ""), Route::Toggle);
    assert_eq!(route_input(&handlers, "   \t "), Route::Toggle);
}

#[test]
fn toggle_flips_playback_and_picks_the_call() {
    let mut s = Session::new("@app> ".to_string());
    assert!(!s.playing);
    let first = s.toggle();
    assert!(s.playing);
    assert_eq!(first, PlaybackAction::Resume);
    let second = s.toggle();
    assert!(!s.playing);
    assert_eq!(second, PlaybackAction::Pause);
    assert_eq!(s.prompt, "@app> ");
}

#[test]
fn volume_shorthand_bypasses_the_registry() {
    let handlers = default_handlers();
    assert_eq!(route_input(&handlers, "+10"), Route::VolumeDelta { down: false, amount: 10 });
    assert_eq!(route_input(&handlers, "-50"), Route::VolumeDelta { down: true, amount: 50 });
    assert_eq!(route_input(&handlers, "  + 7  "), Route::VolumeDelta { down: false, amount: 7 });
    assert_eq!(
        route_input(&handlers, "+1000"),
        Route::VolumeDelta { down: false, amount: 300 }
    );
    // A sign without digits, or digits with a tail, is not the shorthand.
    assert_eq!(
        route_input(&handlers, "+"),
        Route::Unknown { token: "+".to_string() }
    );
    assert_eq!(
        route_input(&handlers, "+5x"),
        Route::Unknown { token: "+5x".to_string() }
    );
}

#[test]
fn command_lines_route_through_the_registry() {
    let handlers = default_handlers();
    match route_input(&handlers, "search  dark side") {
        Route::Command { index, arg } => {
            assert_eq!(handlers[index].cmd, Cmd::Search);
            assert_eq!(arg, Some("dark side".to_string()));
        }
        other => panic!("unexpected route {:?}", other),
    }
    match route_input(&handlers, "VOL 30") {
        Route::Command { index, arg } => {
            assert_eq!(handlers[index].cmd, Cmd::SetVolume);
            assert_eq!(arg, Some("30".to_string()));
        }
        other => panic!("unexpected route {:?}", other),
    }
    assert_eq!(
        route_input(&handlers, "frobnicate now"),
        Route::Unknown { token: "frobnicate".to_string() }
    );
}

#[test]
fn volume_set_clamps_and_rejects() {
    assert_eq!(set_volume_decision(Some("50")), VolumeCommand::SetTo(50));
    assert_eq!(set_volume_decision(Some("150")), VolumeCommand::SetTo(100));
    assert_eq!(set_volume_decision(Some("100")), VolumeCommand::SetTo(100));
    assert_eq!(set_volume_decision(Some("0")), VolumeCommand::SetTo(0));
    assert_eq!(set_volume_decision(Some("-5")), VolumeCommand::Invalid);
    assert_eq!(set_volume_decision(Some("abc")), VolumeCommand::Invalid);
    assert_eq!(set_volume_decision(Some("300")), VolumeCommand::Invalid);
    assert_eq!(set_volume_decision(None), VolumeCommand::Usage);
}

#[test]
fn volume_delta_clamps_to_percent_range() {
    assert_eq!(volume_target(40, false, 10), 50);
    assert_eq!(volume_target(40, true, 50), 0);
    assert_eq!(volume_target(40, false, 300), 100);
    assert_eq!(volume_target(0, true, 1), 0);
    assert_eq!(volume_target(99, false, 1), 100);
    assert_eq!(volume_target(100, false, 0), 100);
}

use ShuffleDecision::{Apply, CannotDetermine, Report};

#[test]
fn shuffle_contract() {
    assert_eq!(shuffle_decision(None, Some(true)), Apply(false));
    assert_eq!(shuffle_decision(None, Some(false)), Apply(true));
    assert_eq!(shuffle_decision(Some("on"), Some(true)), Report(true));
    assert_eq!(shuffle_decision(Some("off"), Some(true)), Apply(false));
    assert_eq!(shuffle_decision(Some("ON"), None), Apply(true));
    assert_eq!(shuffle_decision(Some("no"), None), Apply(false));
    assert_eq!(shuffle_decision(None, None), CannotDetermine);
    assert_eq!(shuffle_decision(Some("sideways"), Some(true)), ShuffleDecision::Usage);
}

#[test]
fn repeat_requires_an_explicit_target() {
    assert_eq!(repeat_decision(Some("off")), RepeatDecision::Apply(RepeatMode::Off));
    assert_eq!(repeat_decision(Some("track")), RepeatDecision::Apply(RepeatMode::Track));
    assert_eq!(repeat_decision(Some("context")), RepeatDecision::Apply(RepeatMode::Context));
    assert_eq!(repeat_decision(Some("playlist")), RepeatDecision::Apply(RepeatMode::Context));
    assert_eq!(repeat_decision(Some("PL")), RepeatDecision::Apply(RepeatMode::Context));
    assert_eq!(repeat_decision(Some("yes")), RepeatDecision::Apply(RepeatMode::Track));
    assert_eq!(repeat_decision(Some("loop")), RepeatDecision::Usage);
    assert_eq!(repeat_decision(None), RepeatDecision::Usage);
}

#[test]
fn show_targets() {
    assert_eq!(show_target(None), ShowTarget::Playback);
    assert_eq!(show_target(Some("playing")), ShowTarget::Playing);
    assert_eq!(show_target(Some("track")), ShowTarget::Playing);
    assert_eq!(show_target(Some("lib")), ShowTarget::Library);
    assert_eq!(show_target(Some("pl")), ShowTarget::Library);
    assert_eq!(show_target(Some("Lib")), ShowTarget::Playlist("Lib".to_string()));
    assert_eq!(show_target(Some("mix")), ShowTarget::Playlist("mix".to_string()));
}

#[test]
fn yes_no_words() {
    assert_eq!(parse_yes_no("y"), Some(true));
    assert_eq!(parse_yes_no("YES"), Some(true));
    assert_eq!(parse_yes_no("true"), Some(true));
    assert_eq!(parse_yes_no("n"), Some(false));
    assert_eq!(parse_yes_no("No"), Some(false));
    assert_eq!(parse_yes_no("false"), Some(false));
    assert_eq!(parse_yes_no("maybe"), None);
    assert_eq!(parse_on_off("ON"), Some(true));
    assert_eq!(parse_on_off("off"), Some(false));
    assert_eq!(parse_on_off("sideways"), None);
}

#[test]
fn prompt_changes_only_with_substance() {
    let mut s = Session::new("@libman> ".to_string());
    assert!(!s.set_prompt("   "));
    assert_eq!(s.prompt, "@libman> ");
    assert!(s.set_prompt("  @app>  "));
    assert_eq!(s.prompt, "@app> ");
}

#[test]
fn empty_input_toggles_in_a_session() {
    // A session at prompt `@app>`: blank input toggles playback exactly
    // once and the loop carries on with its state updated.
    let handlers = default_handlers();
    let mut s = Session::new("@app>".to_string());
    let was_playing = s.playing;
    match route_input(&handlers, "") {
        Route::Toggle => {
            let action = s.toggle();
            assert_eq!(s.playing, !was_playing);
            assert_eq!(
                action,
                if s.playing { PlaybackAction::Resume } else { PlaybackAction::Pause }
            );
        }
        other => panic!("blank input must toggle, got {:?}", other),
    }
    assert_eq!(s.prompt, "@app>");
}

#[test]
fn device_resolution_is_exact_and_ordered() {
    let devs = vec![
        DeviceInfo {
            id: "a".to_string(),
            name: "Kitchen".to_string(),
            volume_percent: 40,
            is_active: false,
        },
        DeviceInfo {
            id: "b".to_string(),
            name: "Desk".to_string(),
            volume_percent: 70,
            is_active: true,
        },
        DeviceInfo {
            id: "c".to_string(),
            name: "Desk".to_string(),
            volume_percent: 10,
            is_active: true,
        },
    ];
    assert_eq!(find_device_by_name(&devs, "Desk"), Some(1));
    assert_eq!(find_device_by_name(&devs, "desk"), None);
    assert_eq!(find_active(&devs), Some(1));
    assert_eq!(find_device_by_name(&devs, "Car"), None);
}

#[test]
fn album_target_prefers_the_uri() {
    let uri = Some("spotify:album:a1".to_string());
    let id = Some("a1".to_string());
    assert_eq!(
        libman::control::album_play_target(&uri, &id),
        Some("spotify:album:a1".to_string())
    );
    assert_eq!(
        libman::control::album_play_target(&None, &id),
        Some("a1".to_string())
    );
    assert_eq!(libman::control::album_play_target(&None, &None), None);
}

#[test]
fn playlist_resolution_is_case_insensitive() {
    let pls = vec![
        Playlist::Simple(meta("p1", "Focus")),
        Playlist::Simple(meta("p2", "Road Trip")),
    ];
    assert_eq!(find_playlist_by_name(&pls, "focus"), Some(0));
    assert_eq!(find_playlist_by_name(&pls, "ROAD TRIP"), Some(1));
    assert_eq!(find_playlist_by_name(&pls, "gym"), None);
}
