use libman::command::{AlbumCmd, ArtistCmd, PlaylistCmd, TrackCmd};
use libman::control::search_cmd::{
    album_cmd_exits, artist_cmd_exits, index_arg, listing_line, playlist_cmd_exits, save_arg,
    shell_route, track_cmd_exits, IndexArg, SaveArg, SearchItem, ShellRoute,
};
use libman::handler::default_track_handlers;
use libman::join_artists;
use libman::playlist::{Playlist, PlaylistMeta};

#[test]
fn index_shortcut_plays_in_range() {
    let handlers = default_track_handlers();
    assert_eq!(shell_route(&handlers, 3, "1"), ShellRoute::Play { index: 1 });
    assert_eq!(shell_route(&handlers, 3, " 0 "), ShellRoute::Play { index: 0 });
    assert_eq!(shell_route(&handlers, 3, "2"), ShellRoute::Play { index: 2 });
}

#[test]
fn index_shortcut_out_of_range_keeps_the_shell_open() {
    let handlers = default_track_handlers();
    assert_eq!(shell_route(&handlers, 3, "5"), ShellRoute::RangeHint);
    assert_eq!(shell_route(&handlers, 3, "3"), ShellRoute::RangeHint);
    assert_eq!(shell_route(&handlers, 3, "99999999999999999999999"), ShellRoute::RangeHint);
}

#[test]
fn blank_input_cancels_the_shell() {
    let handlers = default_track_handlers();
    assert_eq!(shell_route(&handlers, 3, ""), ShellRoute::Cancel);
    assert_eq!(shell_route(&handlers, 3, "  "), ShellRoute::Cancel);
}

#[test]
fn digits_with_an_argument_are_a_command_word() {
    let handlers = default_track_handlers();
    assert_eq!(
        shell_route(&handlers, 3, "1 2"),
        ShellRoute::Unknown { token: "1".to_string() }
    );
}

#[test]
fn scoped_commands_resolve_with_their_argument() {
    let handlers = default_track_handlers();
    match shell_route(&handlers, 3, "queue 2") {
        ShellRoute::Command { index, arg } => {
            assert_eq!(handlers[index].cmd, TrackCmd::Queue);
            assert_eq!(arg, Some("2".to_string()));
        }
        other => panic!("unexpected route {:?}", other),
    }
    match shell_route(&handlers, 3, "FAV 0") {
        ShellRoute::Command { index, arg } => {
            assert_eq!(handlers[index].cmd, TrackCmd::Like);
            assert_eq!(arg, Some("0".to_string()));
        }
        other => panic!("unexpected route {:?}", other),
    }
}

#[test]
fn index_argument_classification() {
    assert_eq!(index_arg(5, None), IndexArg::Usage);
    assert_eq!(index_arg(5, Some("x")), IndexArg::Usage);
    assert_eq!(index_arg(5, Some("3")), IndexArg::Index(3));
    assert_eq!(index_arg(5, Some("+3")), IndexArg::Index(3));
    assert_eq!(index_arg(5, Some("5")), IndexArg::OutOfRange);
    assert_eq!(index_arg(5, Some("12")), IndexArg::OutOfRange);
    assert_eq!(index_arg(5, Some("99999999999999999999999")), IndexArg::Usage);
}

#[test]
fn save_argument_carries_the_playlist_name() {
    assert_eq!(save_arg(5, None), SaveArg::Usage);
    assert_eq!(save_arg(5, Some("2")), SaveArg::Chosen(2, None));
    assert_eq!(
        save_arg(5, Some("2 road trip")),
        SaveArg::Chosen(2, Some("road trip".to_string()))
    );
    assert_eq!(save_arg(5, Some("9 mix")), SaveArg::OutOfRange);
    assert_eq!(save_arg(5, Some("two mix")), SaveArg::Usage);
}

#[test]
fn aggregate_listing_lines() {
    let track = SearchItem::Track {
        name: "Time".to_string(),
        artists: vec!["Pink Floyd".to_string()],
        uri: "spotify:track:t1".to_string(),
    };
    assert_eq!(track.line_text(0), "# 0: track    | Time by Pink Floyd");
    let artist = SearchItem::Artist {
        name: "Nico".to_string(),
        uri: "spotify:artist:a1".to_string(),
    };
    assert_eq!(artist.line_text(12), "#12: artist   | Nico");
    let album = SearchItem::Album {
        name: "Meddle".to_string(),
        artists: vec!["Pink Floyd".to_string()],
        uri: Some("spotify:album:b1".to_string()),
        id: None,
    };
    assert_eq!(album.line_text(3), "# 3: album    | Meddle by Pink Floyd");
    let playlist = SearchItem::Playlist(Playlist::Simple(PlaylistMeta {
        id: "p1".to_string(),
        uri: "spotify:playlist:p1".to_string(),
        name: "Focus".to_string(),
        owner: Some("ada".to_string()),
    }));
    assert_eq!(playlist.line_text(100), "#100: playlist | Focus from ada");
    let unowned = SearchItem::Playlist(Playlist::Simple(PlaylistMeta {
        id: "p2".to_string(),
        uri: "spotify:playlist:p2".to_string(),
        name: "Mix".to_string(),
        owner: None,
    }));
    assert_eq!(unowned.line_text(4), "# 4: playlist | Mix from unknown");
}

#[test]
fn shell_listing_lines() {
    assert_eq!(listing_line("Time by Pink Floyd", 7), "# 7 | Time by Pink Floyd");
    assert_eq!(listing_line("Nico", 10), "#10 | Nico");
}

#[test]
fn artists_join_for_display() {
    let none: Vec<String> = vec![];
    assert_eq!(join_artists(&none), "");
    assert_eq!(join_artists(&vec!["Nico".to_string()]), "Nico");
    assert_eq!(
        join_artists(&vec!["Nico".to_string(), "Cale".to_string()]),
        "Nico and Cale"
    );
    assert_eq!(
        join_artists(&vec!["A".to_string(), "B".to_string(), "C".to_string()]),
        "A, B and C"
    );
    assert_eq!(
        join_artists(&vec![
            "A".to_string(),
            "B".to_string(),
            "C".to_string(),
            "D".to_string()
        ]),
        "A, B, C and D"
    );
}

#[test]
fn only_play_exits_a_shell() {
    assert!(track_cmd_exits(TrackCmd::Play));
    assert!(!track_cmd_exits(TrackCmd::Queue));
    assert!(!track_cmd_exits(TrackCmd::Save));
    assert!(!track_cmd_exits(TrackCmd::Like));
    assert!(!track_cmd_exits(TrackCmd::Help));
    assert!(album_cmd_exits(AlbumCmd::Play));
    assert!(!album_cmd_exits(AlbumCmd::Save));
    assert!(artist_cmd_exits(ArtistCmd::Play));
    assert!(!artist_cmd_exits(ArtistCmd::Follow));
    assert!(playlist_cmd_exits(PlaylistCmd::Play));
    assert!(!playlist_cmd_exits(PlaylistCmd::Queue));
}
