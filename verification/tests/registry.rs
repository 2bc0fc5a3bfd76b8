use libman::command::{AlbumCmd, ArtistCmd, Cmd, PlaylistCmd, TrackCmd};
use libman::control::search_cmd::{
    describe_album, describe_artist, describe_playlist, describe_track,
};
use libman::handler::{
    default_album_handlers, default_artist_handlers, default_handlers, default_playlist_handlers,
    default_track_handlers, describe, find_handler, Handler,
};

#[test]
fn match_is_case_insensitive() {
    let handlers = default_handlers();
    for token in ["search", "Search", "SEARCH", "sEaRcH"] {
        let i = find_handler(&handlers, token).expect("name should match");
        assert_eq!(handlers[i].cmd, Cmd::Search);
    }
}

#[test]
fn match_aliases_case_insensitively() {
    let handlers = default_handlers();
    for (token, cmd) in [
        ("s", Cmd::Search),
        ("S", Cmd::Search),
        ("vol", Cmd::SetVolume),
        ("VOL", Cmd::SetVolume),
        (">", Cmd::Next),
        ("<", Cmd::Prev),
        ("add", Cmd::SavePlaying),
        ("PL", Cmd::PlayUserPlaylist),
    ] {
        let i = find_handler(&handlers, token).expect("alias should match");
        assert_eq!(handlers[i].cmd, cmd);
    }
}

#[test]
fn every_descriptor_matches_its_own_words() {
    let handlers = default_handlers();
    for h in &handlers {
        assert!(h.is_match(&h.name));
        for a in &h.aliases {
            assert!(h.is_match(a));
        }
    }
}

#[test]
fn empty_and_unknown_tokens_match_nothing() {
    let handlers = default_handlers();
    assert_eq!(find_handler(&handlers, ""), None);
    assert_eq!(find_handler(&handlers, "no-such-command"), None);
}

#[test]
fn first_registered_descriptor_wins() {
    let mut handlers = vec![
        Handler::new(0u32, "play", "first", "play", vec!["pl"], "first"),
        Handler::new(1u32, "play", "second", "play", vec!["pl"], "second"),
    ];
    assert_eq!(find_handler(&handlers, "play"), Some(0));
    assert_eq!(find_handler(&handlers, "PL"), Some(0));
    handlers.swap(0, 1);
    assert_eq!(find_handler(&handlers, "play"), Some(0));
    assert_eq!(handlers[0].cmd, 1u32);
}

#[test]
fn every_global_command_is_bound() {
    let handlers = default_handlers();
    assert_eq!(handlers.len(), 24);
    for cmd in [
        Cmd::Search,
        Cmd::SearchTrack,
        Cmd::SearchArtist,
        Cmd::SearchAlbum,
        Cmd::SearchPlaylist,
        Cmd::PlayFirstTrack,
        Cmd::PlayFirstAlbum,
        Cmd::PlayFirstPlaylist,
        Cmd::PlayFirstArtist,
        Cmd::SetVolume,
        Cmd::Shuffle,
        Cmd::Repeat,
        Cmd::Next,
        Cmd::Prev,
        Cmd::SavePlaying,
        Cmd::RemovePlaying,
        Cmd::CreatePlaylist,
        Cmd::EditPlaylist,
        Cmd::DeletePlaylist,
        Cmd::Help,
        Cmd::PlayUserPlaylist,
        Cmd::SetDevice,
        Cmd::Show,
        Cmd::Prompt,
    ] {
        assert!(describe(&handlers, cmd).is_some(), "{:?} has no descriptor", cmd);
    }
}

#[test]
fn every_scoped_command_is_bound() {
    let track = default_track_handlers();
    for cmd in [TrackCmd::Play, TrackCmd::Queue, TrackCmd::Save, TrackCmd::Like, TrackCmd::Help] {
        assert!(describe_track(&track, cmd).is_some());
    }
    let album = default_album_handlers();
    for cmd in [AlbumCmd::Play, AlbumCmd::Queue, AlbumCmd::Save, AlbumCmd::Help] {
        assert!(describe_album(&album, cmd).is_some());
    }
    let artist = default_artist_handlers();
    for cmd in [ArtistCmd::Play, ArtistCmd::Queue, ArtistCmd::Follow, ArtistCmd::Help] {
        assert!(describe_artist(&artist, cmd).is_some());
    }
    let playlist = default_playlist_handlers();
    for cmd in [PlaylistCmd::Play, PlaylistCmd::Queue, PlaylistCmd::Follow, PlaylistCmd::Help] {
        assert!(describe_playlist(&playlist, cmd).is_some());
    }
}

#[test]
fn describe_finds_the_right_entry() {
    let handlers = default_handlers();
    let i = describe(&handlers, Cmd::Repeat).unwrap();
    assert_eq!(handlers[i].name, "repeat");
    assert_eq!(handlers[i].usage, "repeat [off|track|context]");
}

#[test]
fn help_text_formats() {
    let h = Handler::new(0u32, "play", "Play a track.", "play <N>", vec!["pl"], "Long help.");
    assert_eq!(h.usage_text(), "usage:\n  play <N>");
    assert_eq!(h.short_help_text(), "play [aliases: pl]\n\tPlay a track.");
    assert_eq!(h.help_text(), "# play\naliases: pl\nusage:\n  play <N>\n\nLong help.");
    let bare = Handler::new(1u32, "help", "Show help.", "help [topic]", vec![], "More.");
    assert_eq!(bare.short_help_text(), "help\n\tShow help.");
    assert_eq!(bare.help_text(), "# help\nusage:\n  help [topic]\n\nMore.");
}

#[test]
fn alias_lists_join_with_commas() {
    let h = Handler::new(
        0u32,
        "queue",
        "Queue a track.",
        "queue <N>",
        vec!["q", "que"],
        "Queue help.",
    );
    assert_eq!(h.short_help_text(), "queue [aliases: q, que]\n\tQueue a track.");
}
