use libman::control::Session;
use libman::playlist::{Playlist, PlaylistMeta, TrackRef};

fn meta(id: &str, name: &str) -> PlaylistMeta {
    PlaylistMeta {
        id: id.to_string(),
        uri: format!("spotify:playlist:{}", id),
        name: name.to_string(),
        owner: Some("me".to_string()),
    }
}

fn track(id: Option<&str>, uri: &str) -> TrackRef {
    TrackRef { id: id.map(|s| s.to_string()), uri: uri.to_string() }
}

#[test]
fn names_compare_case_insensitively() {
    let p = Playlist::Simple(meta("p1", "Road Trip"));
    assert!(p.name_eq("road trip"));
    assert!(p.name_eq("ROAD TRIP"));
    assert!(!p.name_eq("road"));
    assert_eq!(p.name(), "Road Trip");
    assert_eq!(p.id(), "p1");
    assert_eq!(p.uri(), "spotify:playlist:p1");
    assert_eq!(p.owner().as_deref(), Some("me"));
}

#[test]
fn set_name_patches_in_place() {
    let mut p = Playlist::Simple(meta("p1", "Old"));
    p.set_name("New");
    assert_eq!(p.name(), "New");
    assert_eq!(p.id(), "p1");
}

#[test]
fn make_full_upgrades_once() {
    let mut p = Playlist::Simple(meta("p1", "Focus"));
    assert!(p.is_simple());
    p.make_full(vec![track(Some("t1"), "spotify:track:t1")]);
    assert!(!p.is_simple());
    assert_eq!(p.name(), "Focus");
    assert!(p.contains_track(&track(Some("t1"), "spotify:track:t1")));
    // A second upgrade keeps the listing it already has.
    p.make_full(vec![]);
    assert!(p.contains_track(&track(Some("t1"), "spotify:track:t1")));
}

#[test]
fn membership_matches_by_id_with_uri_fallback() {
    let mut p = Playlist::Simple(meta("p1", "Focus"));
    p.make_full(vec![
        track(Some("t1"), "spotify:track:t1"),
        track(None, "spotify:local:x"),
    ]);
    assert!(p.contains_track(&track(Some("t1"), "spotify:track:other")));
    assert!(p.contains_track(&track(None, "spotify:local:x")));
    assert!(!p.contains_track(&track(Some("t9"), "spotify:track:t9")));
}

#[test]
fn saving_twice_adds_once() {
    // The duplicate-safe save: the first invocation finds the track absent,
    // issues the addition and patches the cache; the second finds it
    // present and issues no mutating call.
    let playing = track(Some("t1"), "spotify:track:t1");
    let mut session = Session::new("> ".to_string());
    let mut pl = Playlist::Simple(meta("p1", "Focus"));
    pl.make_full(vec![track(Some("t0"), "spotify:track:t0")]);
    session.fill_cache(vec![pl]);

    let mut additions = 0;
    for _ in 0..2 {
        let cache = session.pl_cache.as_ref().unwrap();
        let already = cache[0].contains_track(&playing);
        if !already {
            // The service call would go out here, then the cache is patched.
            additions += 1;
            session.playlist_track_added("p1", track(Some("t1"), "spotify:track:t1"));
        }
    }
    assert_eq!(additions, 1);
    let cache = session.pl_cache.as_ref().unwrap();
    assert!(cache[0].contains_track(&playing));
}

#[test]
fn removing_deletes_all_occurrences() {
    let mut p = Playlist::Simple(meta("p1", "Focus"));
    p.make_full(vec![
        track(Some("t1"), "u1"),
        track(Some("t2"), "u2"),
        track(Some("t1"), "u1b"),
    ]);
    p.remove_track(&track(Some("t1"), "whatever"));
    assert!(!p.contains_track(&track(Some("t1"), "x")));
    assert!(p.contains_track(&track(Some("t2"), "x")));
}

#[test]
fn cache_prepends_created_playlists() {
    let mut session = Session::new("> ".to_string());
    // Without a materialized cache nothing is patched.
    session.playlist_created(Playlist::Simple(meta("p0", "Zero")));
    assert!(session.pl_cache.is_none());
    session.fill_cache(vec![Playlist::Simple(meta("p1", "One"))]);
    session.playlist_created(Playlist::Simple(meta("p2", "Two")));
    let cache = session.pl_cache.as_ref().unwrap();
    assert_eq!(cache.len(), 2);
    assert_eq!(cache[0].id(), "p2");
    assert_eq!(cache[1].id(), "p1");
}

#[test]
fn deletion_drops_the_entry_and_the_last_played_reference() {
    let mut session = Session::new("> ".to_string());
    session.fill_cache(vec![
        Playlist::Simple(meta("p1", "One")),
        Playlist::Simple(meta("p2", "Two")),
    ]);
    session.played_playlist(Playlist::Simple(meta("p2", "Two")));
    assert!(session.playing);
    session.playlist_deleted("p2");
    assert!(session.last_pl.is_none());
    let cache = session.pl_cache.as_ref().unwrap();
    assert_eq!(cache.len(), 1);
    assert_eq!(cache[0].id(), "p1");
}

#[test]
fn deletion_of_another_playlist_keeps_the_last_played_reference() {
    let mut session = Session::new("> ".to_string());
    session.fill_cache(vec![
        Playlist::Simple(meta("p1", "One")),
        Playlist::Simple(meta("p2", "Two")),
    ]);
    session.played_playlist(Playlist::Simple(meta("p2", "Two")));
    session.playlist_deleted("p1");
    assert!(session.last_pl.is_some());
    let cache = session.pl_cache.as_ref().unwrap();
    assert_eq!(cache.len(), 1);
    assert_eq!(cache[0].id(), "p2");
}

#[test]
fn renaming_patches_the_cached_entry() {
    let mut session = Session::new("> ".to_string());
    session.fill_cache(vec![
        Playlist::Simple(meta("p1", "One")),
        Playlist::Simple(meta("p2", "Two")),
    ]);
    session.playlist_renamed("p2", "Second");
    let cache = session.pl_cache.as_ref().unwrap();
    assert_eq!(cache[0].name(), "One");
    assert_eq!(cache[1].name(), "Second");
    assert_eq!(cache[1].id(), "p2");
}

#[test]
fn promotion_upgrades_the_cached_entry_in_place() {
    let mut session = Session::new("> ".to_string());
    session.fill_cache(vec![Playlist::Simple(meta("p1", "One"))]);
    session.playlist_promoted("p1", vec![track(Some("t1"), "u1")]);
    let cache = session.pl_cache.as_ref().unwrap();
    assert!(!cache[0].is_simple());
    assert!(cache[0].contains_track(&track(Some("t1"), "x")));
}

#[test]
fn track_removal_patches_the_cached_entry() {
    let mut session = Session::new("> ".to_string());
    let mut pl = Playlist::Simple(meta("p1", "One"));
    pl.make_full(vec![track(Some("t1"), "u1"), track(Some("t2"), "u2")]);
    session.fill_cache(vec![pl]);
    session.playlist_track_removed("p1", &track(Some("t1"), "x"));
    let cache = session.pl_cache.as_ref().unwrap();
    assert!(!cache[0].contains_track(&track(Some("t1"), "x")));
    assert!(cache[0].contains_track(&track(Some("t2"), "x")));
}
