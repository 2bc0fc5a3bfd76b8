//! Command identifiers, one closed enumeration per shell scope: the global
//! prompt vocabulary and the four result-shell vocabularies.

use vstd::prelude::*;

verus! {

/// Global prompt commands.
#[derive(Debug, Clone, Copy, PartialEq, Eq, Structural)]
pub enum Cmd {
    // search commands
    Search,
    SearchTrack,
    SearchArtist,
    SearchAlbum,
    SearchPlaylist,
    // play-first commands (similar to "i'm feeling lucky")
    PlayFirstTrack,
    PlayFirstAlbum,
    PlayFirstPlaylist,
    PlayFirstArtist,
    // player commands
    SetVolume,
    Shuffle,
    Repeat,
    Next,
    Prev,
    // library commands
    SavePlaying,
    RemovePlaying,
    CreatePlaylist,
    EditPlaylist,
    DeletePlaylist,
    // misc
    Help,
    PlayUserPlaylist,
    SetDevice,
    Show,
    Prompt,
}

/// Track result-shell commands.
#[derive(Debug, Clone, Copy, PartialEq, Eq, Structural)]
pub enum TrackCmd {
    Play,
    Queue,
    Save,
    Like,
    Help,
}

/// Album result-shell commands.
#[derive(Debug, Clone, Copy, PartialEq, Eq, Structural)]
pub enum AlbumCmd {
    Play,
    Queue,
    Save,
    Help,
}

/// Artist result-shell commands.
#[derive(Debug, Clone, Copy, PartialEq, Eq, Structural)]
pub enum ArtistCmd {
    Play,
    Queue,
    Follow,
    Help,
}

/// Playlist result-shell commands.
#[derive(Debug, Clone, Copy, PartialEq, Eq, Structural)]
pub enum PlaylistCmd {
    Play,
    Queue,
    Follow,
    Help,
}

} // verus!
