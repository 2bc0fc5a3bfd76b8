//! The command registry: a descriptor per invocable command (name, aliases,
//! help text, identifier), case-insensitive first-match lookup over an
//! ordered table, and the text the help commands display.

use crate::command::{AlbumCmd, ArtistCmd, Cmd, PlaylistCmd, TrackCmd};
use crate::{comma_join, eq_fold, equalfold, lemma_eq_fold_reflexive};
use vstd::prelude::*;

verus! {

/// One invocable command: its identifier, its canonical name, the alternate
/// names it answers to, and its display text.
pub struct Handler<T> {
    pub name: String,
    pub cmd: T,
    pub description: String,
    pub help: String,
    pub usage: String,
    pub aliases: Vec<String>,
}

impl<T> Handler<T> {
    /// A well-formed descriptor has a non-empty name and non-empty aliases,
    /// so that no command word is the empty string.
    pub open spec fn wf(self) -> bool {
        self.name@.len() > 0 && forall|i: int|
            0 <= i < self.aliases@.len() ==> self.aliases@[i]@.len() > 0
    }

    /// Does this descriptor answer to `token`? Case-insensitively equal to
    /// the name or to any alias.
    pub open spec fn matches_token(self, token: Seq<char>) -> bool {
        eq_fold(self.name@, token) || exists|i: int|
            0 <= i < self.aliases@.len() && eq_fold(self.aliases@[i]@, token)
    }

    /// Case-insensitive match of `s` against this descriptor's name and
    /// aliases.
    pub fn is_match(&self, s: &str) -> (r: bool)
        ensures
            r == self.matches_token(s@),
    {
        if equalfold(self.name.as_str(), s) {
            return true;
        }
        let n = self.aliases.len();
        let mut i: usize = 0;
        while i < n
            invariant
                i <= n,
                n == self.aliases@.len(),
                forall|j: int| 0 <= j < i ==> !eq_fold(self.aliases@[j]@, s@),
            decreases n - i,
        {
            if equalfold(self.aliases[i].as_str(), s) {
                return true;
            }
            i += 1;
        }
        false
    }

    /// Build a descriptor from static table text.
    pub fn new(
        cmd: T,
        name: &str,
        description: &str,
        usage: &str,
        aliases: Vec<&str>,
        help: &str,
    ) -> (h: Handler<T>)
        ensures
            h.cmd == cmd,
            h.name@ == name@,
            h.description@ == description@,
            h.usage@ == usage@,
            h.help@ == help@,
            h.aliases@.len() == aliases@.len(),
            forall|i: int| 0 <= i < aliases@.len() ==> h.aliases@[i]@ == aliases@[i]@,
    {
        let n = aliases.len();
        let mut owned: Vec<String> = Vec::new();
        let mut i: usize = 0;
        while i < n
            invariant
                i <= n,
                n == aliases@.len(),
                owned@.len() == i,
                forall|j: int| 0 <= j < i ==> owned@[j]@ == aliases@[j]@,
            decreases n - i,
        {
            owned.push(aliases[i].to_owned());
            i += 1;
        }
        Handler {
            name: name.to_owned(),
            cmd,
            description: description.to_owned(),
            help: help.to_owned(),
            usage: usage.to_owned(),
            aliases: owned,
        }
    }

    /// The usage line the registry prints after a malformed argument.
    pub open spec fn spec_usage_text(self) -> Seq<char> {
        "usage:\n  "@ + self.usage@
    }

    /// Render the usage line.
    pub fn usage_text(&self) -> (r: String)
        ensures
            r@ == self.spec_usage_text(),
    {
        let mut out = "usage:\n  ".to_owned();
        out.append(self.usage.as_str());
        out
    }

    /// One line of the help index: the name, its aliases if any, and the
    /// short description on an indented second line.
    pub open spec fn spec_short_help_text(self) -> Seq<char> {
        if self.aliases@.len() == 0 {
            self.name@ + "\n\t"@ + self.description@
        } else {
            self.name@ + " [aliases: "@ + comma_join(self.aliases.deep_view()) + "]\n\t"@
                + self.description@
        }
    }

    /// Render one line of the help index.
    pub fn short_help_text(&self) -> (r: String)
        ensures
            r@ == self.spec_short_help_text(),
    {
        let mut out = self.name.clone();
        if !self.aliases.is_empty() {
            out.append(" [aliases: ");
            let joined = join_comma(&self.aliases);
            out.append(joined.as_str());
            out.append("]\n\t");
        } else {
            out.append("\n\t");
        }
        out.append(self.description.as_str());
        out
    }

    /// The full help page of one command: heading, aliases if any, usage,
    /// then the long help text.
    pub open spec fn spec_help_text(self) -> Seq<char> {
        if self.aliases@.len() == 0 {
            "# "@ + self.name@ + "\nusage:\n  "@ + self.usage@ + "\n\n"@ + self.help@
        } else {
            "# "@ + self.name@ + "\naliases: "@ + comma_join(self.aliases.deep_view())
                + "\nusage:\n  "@ + self.usage@ + "\n\n"@ + self.help@
        }
    }

    /// Render the full help page of one command.
    pub fn help_text(&self) -> (r: String)
        ensures
            r@ == self.spec_help_text(),
    {
        let mut out = "# ".to_owned();
        out.append(self.name.as_str());
        if !self.aliases.is_empty() {
            out.append("\naliases: ");
            let joined = join_comma(&self.aliases);
            out.append(joined.as_str());
        }
        out.append("\nusage:\n  ");
        out.append(self.usage.as_str());
        out.append("\n\n");
        out.append(self.help.as_str());
        out
    }
}

/// Join strings with `", "`, as alias lists are displayed.
pub fn join_comma(items: &Vec<String>) -> (r: String)
    ensures
        r@ == comma_join(items.deep_view()),
{
    let ghost parts = items.deep_view();
    let n = items.len();
    if n == 0 {
        return String::new();
    }
    let mut out = items[0].clone();
    let mut i: usize = 1;
    while i < n
        invariant
            1 <= i <= n,
            n == items@.len(),
            parts == items.deep_view(),
            out@ == comma_join(parts.take(i as int)),
        decreases n - i,
    {
        out.append(", ");
        out.append(items[i].as_str());
        proof {
            assert(parts.take(i + 1).drop_last() =~= parts.take(i as int));
            assert(parts.take(i + 1).last() == parts[i as int]);
        }
        i += 1;
    }
    proof {
        assert(parts.take(n as int) =~= parts);
    }
    out
}

/// Some descriptor of the table carries identifier `c`: the table binds an
/// operation to that command.
pub open spec fn covers<T>(handlers: Seq<Handler<T>>, c: T) -> bool {
    exists|k: int| 0 <= k < handlers.len() && handlers[k].cmd == c
}

/// Some descriptor of the table answers to `token`.
pub open spec fn some_match<T>(handlers: Seq<Handler<T>>, token: Seq<char>) -> bool {
    exists|k: int| 0 <= k < handlers.len() && handlers[k].matches_token(token)
}

/// Look `token` up in registry order and return the index of the first
/// descriptor it matches, or `None` when it matches none. This is the whole
/// lookup contract: the match is deterministic, and when one token is
/// registered twice the earlier descriptor always wins.
pub fn find_handler<T>(handlers: &Vec<Handler<T>>, token: &str) -> (r: Option<usize>)
    ensures
        r matches Some(i) ==> i < handlers@.len() && handlers@[i as int].matches_token(token@)
            && forall|j: int| 0 <= j < i ==> !handlers@[j].matches_token(token@),
        r is None ==> forall|j: int|
            0 <= j < handlers@.len() ==> !handlers@[j].matches_token(token@),
{
    let n = handlers.len();
    let mut i: usize = 0;
    while i < n
        invariant
            i <= n,
            n == handlers@.len(),
            forall|j: int| 0 <= j < i ==> !handlers@[j].matches_token(token@),
        decreases n - i,
    {
        if handlers[i].is_match(token) {
            return Some(i);
        }
        i += 1;
    }
    None
}

/// Return the index of the first descriptor carrying identifier `cmd`, as
/// the usage printer looks a known command up.
pub fn describe(handlers: &Vec<Handler<Cmd>>, cmd: Cmd) -> (r: Option<usize>)
    ensures
        r matches Some(i) ==> i < handlers@.len() && handlers@[i as int].cmd == cmd && forall|
            j: int,
        | 0 <= j < i ==> handlers@[j].cmd != cmd,
        r is None ==> forall|j: int| 0 <= j < handlers@.len() ==> handlers@[j].cmd != cmd,
{
    let n = handlers.len();
    let mut i: usize = 0;
    while i < n
        invariant
            i <= n,
            n == handlers@.len(),
            forall|j: int| 0 <= j < i ==> handlers@[j].cmd != cmd,
        decreases n - i,
    {
        if handlers[i].cmd == cmd {
            return Some(i);
        }
        i += 1;
    }
    None
}

/// Every descriptor answers to its own canonical name.
pub proof fn lemma_matches_own_name<T>(h: Handler<T>)
    ensures
        h.matches_token(h.name@),
{
    lemma_eq_fold_reflexive(h.name@);
}

/// Every descriptor answers to each of its aliases.
pub proof fn lemma_matches_own_alias<T>(h: Handler<T>, i: int)
    requires
        0 <= i < h.aliases@.len(),
    ensures
        h.matches_token(h.aliases@[i]@),
{
    lemma_eq_fold_reflexive(h.aliases@[i]@);
}

/// A well-formed descriptor never answers to the empty token.
pub proof fn lemma_empty_token_matches_nothing<T>(h: Handler<T>, token: Seq<char>)
    requires
        h.wf(),
        token.len() == 0,
    ensures
        !h.matches_token(token),
{
}

/// In any registry, a token some descriptor answers to resolves to the
/// earliest such descriptor — looking up a descriptor's own name or alias
/// finds it unless an earlier entry claims the same word.
pub proof fn lemma_first_match_wins<T>(handlers: Seq<Handler<T>>, token: Seq<char>, i: int)
    requires
        0 <= i < handlers.len(),
        handlers[i].matches_token(token),
        forall|j: int| 0 <= j < i ==> !handlers[j].matches_token(token),
    ensures
        forall|k: int|
            #![auto]
            0 <= k < handlers.len() && handlers[k].matches_token(token) ==> i <= k,
{
}

/// The track result-shell command table.
pub fn default_track_handlers() -> (v: Vec<Handler<TrackCmd>>)
    ensures
        v@.len() == 5,
        forall|k: int| 0 <= k < v@.len() ==> (#[trigger] v@[k]).wf(),
        forall|c: TrackCmd| #[trigger] covers(v@, c),
        v@[0].cmd == TrackCmd::Play && v@[0].name@ == "play"@ && v@[0].aliases@.len() == 1 && v@[0].aliases@[0]@ == "pl"@,
        v@[1].cmd == TrackCmd::Queue && v@[1].name@ == "queue"@ && v@[1].aliases@.len() == 2 && v@[1].aliases@[0]@ == "q"@ && v@[1].aliases@[1]@ == "que"@,
        v@[2].cmd == TrackCmd::Save && v@[2].name@ == "save"@ && v@[2].aliases@.len() == 1 && v@[2].aliases@[0]@ == "add"@,
        v@[3].cmd == TrackCmd::Like && v@[3].name@ == "like"@ && v@[3].aliases@.len() == 2 && v@[3].aliases@[0]@ == "fav"@ && v@[3].aliases@[1]@ == "fave"@,
        v@[4].cmd == TrackCmd::Help && v@[4].name@ == "help"@ && v@[4].aliases@.len() == 0,
{
    let mut v: Vec<Handler<TrackCmd>> = Vec::new();
    v.push(Handler::new(
        TrackCmd::Play,
        "play",
        "Play a track.",
        "play <N>",
        vec!["pl"],
        "Play a track.\nYou can also just type the track number.",
    ));
    v.push(Handler::new(
        TrackCmd::Queue,
        "queue",
        "Add a track to your playing queue.",
        "queue <N>",
        vec!["q", "que"],
        "Add a track to your playing queue.",
    ));
    v.push(Handler::new(
        TrackCmd::Save,
        "save",
        "Save a track to a playlist.",
        "save <N> [playlist]",
        vec!["add"],
        "Save a track to one of your playlists.\nYou can omit the playlist name to choose interactively.",
    ));
    v.push(Handler::new(
        TrackCmd::Like,
        "like",
        "Save a track to your 'liked songs'.",
        "like <N>",
        vec!["fav", "fave"],
        "Save a track to your 'liked songs'.",
    ));
    v.push(Handler::new(
        TrackCmd::Help,
        "help",
        "Show available actions.",
        "help [topic]",
        vec![],
        "Show available actions.",
    ));
    proof {
        reveal_strlit("play");
        reveal_strlit("queue");
        reveal_strlit("save");
        reveal_strlit("like");
        reveal_strlit("help");
        reveal_strlit("pl");
        reveal_strlit("q");
        reveal_strlit("que");
        reveal_strlit("add");
        reveal_strlit("fav");
        reveal_strlit("fave");
        assert(v@[0].wf());
        assert(v@[1].wf());
        assert(v@[2].wf());
        assert(v@[3].wf());
        assert(v@[4].wf());
        assert forall|c: TrackCmd| #[trigger] covers(v@, c) by {
            match c {
                TrackCmd::Play => assert(v@[0].cmd == c),
                TrackCmd::Queue => assert(v@[1].cmd == c),
                TrackCmd::Save => assert(v@[2].cmd == c),
                TrackCmd::Like => assert(v@[3].cmd == c),
                TrackCmd::Help => assert(v@[4].cmd == c),
            }
        }
    }
    v
}


/// The artist result-shell command table.
pub fn default_artist_handlers() -> (v: Vec<Handler<ArtistCmd>>)
    ensures
        v@.len() == 4,
        forall|k: int| 0 <= k < v@.len() ==> (#[trigger] v@[k]).wf(),
        forall|c: ArtistCmd| #[trigger] covers(v@, c),
        v@[0].cmd == ArtistCmd::Play && v@[0].name@ == "play"@ && v@[0].aliases@.len() == 1 && v@[0].aliases@[0]@ == "pl"@,
        v@[1].cmd == ArtistCmd::Queue && v@[1].name@ == "queue"@ && v@[1].aliases@.len() == 2 && v@[1].aliases@[0]@ == "q"@ && v@[1].aliases@[1]@ == "que"@,
        v@[2].cmd == ArtistCmd::Follow && v@[2].name@ == "follow"@ && v@[2].aliases@.len() == 1 && v@[2].aliases@[0]@ == "f"@,
        v@[3].cmd == ArtistCmd::Help && v@[3].name@ == "help"@ && v@[3].aliases@.len() == 0,
{
    let mut v: Vec<Handler<ArtistCmd>> = Vec::new();
    v.push(Handler::new(
        ArtistCmd::Play,
        "play",
        "Play an artist.",
        "play <N>",
        vec!["pl"],
        "Play an artist.\nYou can also just enter the items number.",
    ));
    v.push(Handler::new(
        ArtistCmd::Queue,
        "queue",
        "Add an artist to your playing queue.",
        "queue <N>",
        vec!["q", "que"],
        "Add an artist to your playing queue.",
    ));
    v.push(Handler::new(
        ArtistCmd::Follow,
        "follow",
        "Follow an artist.",
        "follow <N>",
        vec!["f"],
        "Follow an artist.",
    ));
    v.push(Handler::new(
        ArtistCmd::Help,
        "help",
        "Show help about a topic.",
        "help [topic]",
        vec![],
        "Show help about a topic or list available commands.",
    ));
    proof {
        reveal_strlit("play");
        reveal_strlit("queue");
        reveal_strlit("follow");
        reveal_strlit("help");
        reveal_strlit("pl");
        reveal_strlit("q");
        reveal_strlit("que");
        reveal_strlit("f");
        assert(v@[0].wf());
        assert(v@[1].wf());
        assert(v@[2].wf());
        assert(v@[3].wf());
        assert forall|c: ArtistCmd| #[trigger] covers(v@, c) by {
            match c {
                ArtistCmd::Play => assert(v@[0].cmd == c),
                ArtistCmd::Queue => assert(v@[1].cmd == c),
                ArtistCmd::Follow => assert(v@[2].cmd == c),
                ArtistCmd::Help => assert(v@[3].cmd == c),
            }
        }
    }
    v
}

/// The album result-shell command table.
pub fn default_album_handlers() -> (v: Vec<Handler<AlbumCmd>>)
    ensures
        v@.len() == 4,
        forall|k: int| 0 <= k < v@.len() ==> (#[trigger] v@[k]).wf(),
        forall|c: AlbumCmd| #[trigger] covers(v@, c),
        v@[0].cmd == AlbumCmd::Play && v@[0].name@ == "play"@ && v@[0].aliases@.len() == 1 && v@[0].aliases@[0]@ == "pl"@,
        v@[1].cmd == AlbumCmd::Save && v@[1].name@ == "save"@ && v@[1].aliases@.len() == 2 && v@[1].aliases@[0]@ == "fave"@ && v@[1].aliases@[1]@ == "fav"@,
        v@[2].cmd == AlbumCmd::Queue && v@[2].name@ == "queue"@ && v@[2].aliases@.len() == 2 && v@[2].aliases@[0]@ == "q"@ && v@[2].aliases@[1]@ == "que"@,
        v@[3].cmd == AlbumCmd::Help && v@[3].name@ == "help"@ && v@[3].aliases@.len() == 0,
{
    let mut v: Vec<Handler<AlbumCmd>> = Vec::new();
    v.push(Handler::new(
        AlbumCmd::Play,
        "play",
        "Play an album.",
        "play <N>",
        vec!["pl"],
        "Play an album.\nYou can also just enter the items number.",
    ));
    v.push(Handler::new(
        AlbumCmd::Save,
        "save",
        "Save an album to your library.",
        "save <N>",
        vec!["fave", "fav"],
        "Save an album to your library.",
    ));
    v.push(Handler::new(
        AlbumCmd::Queue,
        "queue",
        "Add an album to your playing queue.",
        "queue <N>",
        vec!["q", "que"],
        "Add an albums tracks to your playing queue.",
    ));
    v.push(Handler::new(
        AlbumCmd::Help,
        "help",
        "Show help about a topic.",
        "help [topic]",
        vec![],
        "Show help about a topic or list available commands.",
    ));
    proof {
        reveal_strlit("play");
        reveal_strlit("save");
        reveal_strlit("queue");
        reveal_strlit("help");
        reveal_strlit("pl");
        reveal_strlit("fave");
        reveal_strlit("fav");
        reveal_strlit("q");
        reveal_strlit("que");
        assert(v@[0].wf());
        assert(v@[1].wf());
        assert(v@[2].wf());
        assert(v@[3].wf());
        assert forall|c: AlbumCmd| #[trigger] covers(v@, c) by {
            match c {
                AlbumCmd::Play => assert(v@[0].cmd == c),
                AlbumCmd::Save => assert(v@[1].cmd == c),
                AlbumCmd::Queue => assert(v@[2].cmd == c),
                AlbumCmd::Help => assert(v@[3].cmd == c),
            }
        }
    }
    v
}

/// The playlist result-shell command table.
pub fn default_playlist_handlers() -> (v: Vec<Handler<PlaylistCmd>>)
    ensures
        v@.len() == 4,
        forall|k: int| 0 <= k < v@.len() ==> (#[trigger] v@[k]).wf(),
        forall|c: PlaylistCmd| #[trigger] covers(v@, c),
        v@[0].cmd == PlaylistCmd::Play && v@[0].name@ == "play"@ && v@[0].aliases@.len() == 1 && v@[0].aliases@[0]@ == "pl"@,
        v@[1].cmd == PlaylistCmd::Queue && v@[1].name@ == "queue"@ && v@[1].aliases@.len() == 2 && v@[1].aliases@[0]@ == "q"@ && v@[1].aliases@[1]@ == "que"@,
        v@[2].cmd == PlaylistCmd::Follow && v@[2].name@ == "follow"@ && v@[2].aliases@.len() == 1 && v@[2].aliases@[0]@ == "f"@,
        v@[3].cmd == PlaylistCmd::Help && v@[3].name@ == "help"@ && v@[3].aliases@.len() == 0,
{
    let mut v: Vec<Handler<PlaylistCmd>> = Vec::new();
    v.push(Handler::new(
        PlaylistCmd::Play,
        "play",
        "Play a playlist.",
        "play <N>",
        vec!["pl"],
        "Play a playlist.\nYou can also just enter the items number.",
    ));
    v.push(Handler::new(
        PlaylistCmd::Queue,
        "queue",
        "Add a playlist to your playing queue.",
        "queue <N>",
        vec!["q", "que"],
        "Add a playlists tracks to your playing queue.",
    ));
    v.push(Handler::new(
        PlaylistCmd::Follow,
        "follow",
        "Follow a playlist.",
        "follow <N>",
        vec!["f"],
        "Follow a playlist.",
    ));
    v.push(Handler::new(
        PlaylistCmd::Help,
        "help",
        "Show help about a topic.",
        "help [topic]",
        vec![],
        "Show help about a topic or list available commands.",
    ));
    proof {
        reveal_strlit("play");
        reveal_strlit("queue");
        reveal_strlit("follow");
        reveal_strlit("help");
        reveal_strlit("pl");
        reveal_strlit("q");
        reveal_strlit("que");
        reveal_strlit("f");
        assert(v@[0].wf());
        assert(v@[1].wf());
        assert(v@[2].wf());
        assert(v@[3].wf());
        assert forall|c: PlaylistCmd| #[trigger] covers(v@, c) by {
            match c {
                PlaylistCmd::Play => assert(v@[0].cmd == c),
                PlaylistCmd::Queue => assert(v@[1].cmd == c),
                PlaylistCmd::Follow => assert(v@[2].cmd == c),
                PlaylistCmd::Help => assert(v@[3].cmd == c),
            }
        }
    }
    v
}


/// The global prompt command table, in registration order.
#[verifier::rlimit(50)]
pub fn default_handlers() -> (v: Vec<Handler<Cmd>>)
    ensures
        v@.len() == 24,
        forall|k: int| 0 <= k < v@.len() ==> (#[trigger] v@[k]).wf(),
        forall|c: Cmd| #[trigger] covers(v@, c),
        v@[0].cmd == Cmd::Search && v@[0].name@ == "search"@ && v@[0].aliases@.len() == 1 && v@[0].aliases@[0]@ == "s"@,
        v@[1].cmd == Cmd::SearchTrack && v@[1].name@ == "search-track"@ && v@[1].aliases@.len() == 1 && v@[1].aliases@[0]@ == "stra"@,
        v@[2].cmd == Cmd::SearchAlbum && v@[2].name@ == "search-album"@ && v@[2].aliases@.len() == 1 && v@[2].aliases@[0]@ == "salb"@,
        v@[3].cmd == Cmd::SearchArtist && v@[3].name@ == "search-artist"@ && v@[3].aliases@.len() == 1 && v@[3].aliases@[0]@ == "sart"@,
        v@[4].cmd == Cmd::SearchPlaylist && v@[4].name@ == "search-playlist"@ && v@[4].aliases@.len() == 1 && v@[4].aliases@[0]@ == "spla"@,
        v@[5].cmd == Cmd::PlayFirstTrack && v@[5].name@ == "play-track"@ && v@[5].aliases@.len() == 1 && v@[5].aliases@[0]@ == "ptra"@,
        v@[6].cmd == Cmd::PlayFirstAlbum && v@[6].name@ == "play-album"@ && v@[6].aliases@.len() == 1 && v@[6].aliases@[0]@ == "palb"@,
        v@[7].cmd == Cmd::PlayFirstArtist && v@[7].name@ == "play-artist"@ && v@[7].aliases@.len() == 1 && v@[7].aliases@[0]@ == "part"@,
        v@[8].cmd == Cmd::PlayFirstPlaylist && v@[8].name@ == "play-playlist"@ && v@[8].aliases@.len() == 1 && v@[8].aliases@[0]@ == "ppla"@,
        v@[9].cmd == Cmd::SetVolume && v@[9].name@ == "volume"@ && v@[9].aliases@.len() == 1 && v@[9].aliases@[0]@ == "vol"@,
        v@[10].cmd == Cmd::Shuffle && v@[10].name@ == "shuffle"@ && v@[10].aliases@.len() == 1 && v@[10].aliases@[0]@ == "sh"@,
        v@[11].cmd == Cmd::Repeat && v@[11].name@ == "repeat"@ && v@[11].aliases@.len() == 1 && v@[11].aliases@[0]@ == "rep"@,
        v@[12].cmd == Cmd::Next && v@[12].name@ == "next"@ && v@[12].aliases@.len() == 1 && v@[12].aliases@[0]@ == ">"@,
        v@[13].cmd == Cmd::Prev && v@[13].name@ == "prev"@ && v@[13].aliases@.len() == 1 && v@[13].aliases@[0]@ == "<"@,
        v@[14].cmd == Cmd::SavePlaying && v@[14].name@ == "save-playing"@ && v@[14].aliases@.len() == 2 && v@[14].aliases@[0]@ == "save"@ && v@[14].aliases@[1]@ == "add"@,
        v@[15].cmd == Cmd::RemovePlaying && v@[15].name@ == "remove-playing"@ && v@[15].aliases@.len() == 1 && v@[15].aliases@[0]@ == "rm"@,
        v@[16].cmd == Cmd::CreatePlaylist && v@[16].name@ == "create-playlist"@ && v@[16].aliases@.len() == 1 && v@[16].aliases@[0]@ == "create"@,
        v@[17].cmd == Cmd::EditPlaylist && v@[17].name@ == "edit-playlist"@ && v@[17].aliases@.len() == 1 && v@[17].aliases@[0]@ == "edit"@,
        v@[18].cmd == Cmd::DeletePlaylist && v@[18].name@ == "delete-playlist"@ && v@[18].aliases@.len() == 1 && v@[18].aliases@[0]@ == "delete"@,
        v@[19].cmd == Cmd::Help && v@[19].name@ == "help"@ && v@[19].aliases@.len() == 0,
        v@[20].cmd == Cmd::PlayUserPlaylist && v@[20].name@ == "play"@ && v@[20].aliases@.len() == 1 && v@[20].aliases@[0]@ == "pl"@,
        v@[21].cmd == Cmd::SetDevice && v@[21].name@ == "device"@ && v@[21].aliases@.len() == 1 && v@[21].aliases@[0]@ == "dev"@,
        v@[22].cmd == Cmd::Show && v@[22].name@ == "show"@ && v@[22].aliases@.len() == 1 && v@[22].aliases@[0]@ == "sw"@,
        v@[23].cmd == Cmd::Prompt && v@[23].name@ == "prompt"@ && v@[23].aliases@.len() == 0,
{
    let mut v: Vec<Handler<Cmd>> = Vec::new();
    v.push(Handler::new(
        Cmd::Search,
        "search",
        "Search for tracks, artists, albums and playlists.",
        "search <keyword>",
        vec!["s"],
        "Searches for the given keyword to be played.",
    ));
    v.push(Handler::new(
        Cmd::SearchTrack,
        "search-track",
        "Search for a track.",
        "search-track <track>",
        vec!["stra"],
        "Search for a track.\nThe search term can be in the form `track::artist` for a more precise search.\n`track by artist` is also allowed.",
    ));
    v.push(Handler::new(
        Cmd::SearchAlbum,
        "search-album",
        "Search for an album.",
        "search-album <album>",
        vec!["salb"],
        "Search for an album.\nThe search term can be in the form `album::artist` or `album by artist` for more precise results.",
    ));
    v.push(Handler::new(
        Cmd::SearchArtist,
        "search-artist",
        "Search for an artist.",
        "search-artist <artist>",
        vec!["sart"],
        "Search for an artist.",
    ));
    v.push(Handler::new(
        Cmd::SearchPlaylist,
        "search-playlist",
        "Search for a playlist.",
        "search-playlist <playlist>",
        vec!["spla"],
        "Search for a public playlist.",
    ));
    v.push(Handler::new(
        Cmd::PlayFirstTrack,
        "play-track",
        "Search for a track and play the first result.",
        "play-track <track>",
        vec!["ptra"],
        "Search for a track and play the first result.\nThe search term can be in the form `track::artist` or `track by artist` for more precise results.",
    ));
    v.push(Handler::new(
        Cmd::PlayFirstAlbum,
        "play-album",
        "Search for an album and play the first result.",
        "play-album <album>",
        vec!["palb"],
        "Search for an album and play the first result.\nThe search term can be in the form `album::artist` or `album by artist` for more precise results.",
    ));
    v.push(Handler::new(
        Cmd::PlayFirstArtist,
        "play-artist",
        "Search for an artist and play the first result.",
        "play-artist <artist>",
        vec!["part"],
        "Search for an artist and play the first result.",
    ));
    v.push(Handler::new(
        Cmd::PlayFirstPlaylist,
        "play-playlist",
        "Search for a playlist and play the first result.",
        "play-playlist <playlist>",
        vec!["ppla"],
        "Search for a public playlist and play the first result.",
    ));
    v.push(Handler::new(
        Cmd::SetVolume,
        "volume",
        "Change the volume.",
        "volume <percentage>",
        vec!["vol"],
        "Change the volume. You can also use `+N` and `-N` to increase or decrease the volume.",
    ));
    v.push(Handler::new(
        Cmd::Shuffle,
        "shuffle",
        "Turn shuffle on or off.",
        "shuffle [on|off]",
        vec!["sh"],
        "Without any argument, toggles shuffle on or off, otherwise sets shuffle on or off.",
    ));
    v.push(Handler::new(
        Cmd::Repeat,
        "repeat",
        "Changes the repeat state.",
        "repeat [off|track|context]",
        vec!["rep"],
        "Changes the repeat state.",
    ));
    v.push(Handler::new(
        Cmd::Next,
        "next",
        "Plays the next track.",
        "next",
        vec![">"],
        "Plays the next track.",
    ));
    v.push(Handler::new(
        Cmd::Prev,
        "prev",
        "Plays the previous track.",
        "prev",
        vec!["<"],
        "Plays the previous track.",
    ));
    v.push(Handler::new(
        Cmd::SavePlaying,
        "save-playing",
        "Save the currently playing track to a playlist.",
        "save-playing [playlist]",
        vec!["save", "add"],
        "Save the currently playing track to one of your playlists.\nWithout any argument, prompts you for a playlist, else adds to the given playlist.",
    ));
    v.push(Handler::new(
        Cmd::RemovePlaying,
        "remove-playing",
        "Remove the currently playing track from a playlist.",
        "remove-playing [playlist]",
        vec!["rm"],
        "Remove the currently playing track from a playlist.\nIf no playlist name is given, the last played playlist will be assumed.",
    ));
    v.push(Handler::new(
        Cmd::CreatePlaylist,
        "create-playlist",
        "Create a new playlist.",
        "create-playlist [name]",
        vec!["create"],
        "Create a new playlist.\nYou will be prompted for the playlist details.",
    ));
    v.push(Handler::new(
        Cmd::EditPlaylist,
        "edit-playlist",
        "Edit a playlists details.",
        "edit-playlist [playlist]",
        vec!["edit"],
        "Edit one of your playlists' details.\nWithout a playlist name, you will be prompted to choose one.",
    ));
    v.push(Handler::new(
        Cmd::DeletePlaylist,
        "delete-playlist",
        "Delete a playlist.",
        "delete-playlist [playlist]",
        vec!["delete"],
        "Delete or unfollow one of your playlists.",
    ));
    v.push(Handler::new(
        Cmd::Help,
        "help",
        "Display help about a topic.",
        "help [topic]",
        vec![],
        "Without any argument, displays help topics.\nWith an argument, shows help about the given topic.",
    ));
    v.push(Handler::new(
        Cmd::PlayUserPlaylist,
        "play",
        "Play one of your playlists.",
        "play [playlist]",
        vec!["pl"],
        "Play one of your playlists",
    ));
    v.push(Handler::new(
        Cmd::SetDevice,
        "device",
        "Choose a playback device.",
        "device [name]",
        vec!["dev"],
        "Choose a playback device.",
    ));
    v.push(Handler::new(
        Cmd::Show,
        "show",
        "Display various items.",
        "show [library|playing|playlist]",
        vec!["sw"],
        "Show various items.\n\n\tlib|library: Show a list of your playlists.\n\tplaying (or empty): Show currently playing track.\n\tplaylist: Show one of your playlists by name.",
    ));
    v.push(Handler::new(
        Cmd::Prompt,
        "prompt",
        "Change the libman prompt.",
        "prompt <prompt>",
        vec![],
        "Change the libman prompt. A space character will be automatically appended.",
    ));
    proof {
        reveal_strlit("<");
        reveal_strlit(">");
        reveal_strlit("add");
        reveal_strlit("create");
        reveal_strlit("create-playlist");
        reveal_strlit("delete");
        reveal_strlit("delete-playlist");
        reveal_strlit("dev");
        reveal_strlit("device");
        reveal_strlit("edit");
        reveal_strlit("edit-playlist");
        reveal_strlit("help");
        reveal_strlit("next");
        reveal_strlit("palb");
        reveal_strlit("part");
        reveal_strlit("pl");
        reveal_strlit("play");
        reveal_strlit("play-album");
        reveal_strlit("play-artist");
        reveal_strlit("play-playlist");
        reveal_strlit("play-track");
        reveal_strlit("ppla");
        reveal_strlit("prev");
        reveal_strlit("prompt");
        reveal_strlit("ptra");
        reveal_strlit("remove-playing");
        reveal_strlit("rep");
        reveal_strlit("repeat");
        reveal_strlit("rm");
        reveal_strlit("s");
        reveal_strlit("salb");
        reveal_strlit("sart");
        reveal_strlit("save");
        reveal_strlit("save-playing");
        reveal_strlit("search");
        reveal_strlit("search-album");
        reveal_strlit("search-artist");
        reveal_strlit("search-playlist");
        reveal_strlit("search-track");
        reveal_strlit("sh");
        reveal_strlit("show");
        reveal_strlit("shuffle");
        reveal_strlit("spla");
        reveal_strlit("stra");
        reveal_strlit("sw");
        reveal_strlit("vol");
        reveal_strlit("volume");
        assert(v@[0].wf());
        assert(v@[1].wf());
        assert(v@[2].wf());
        assert(v@[3].wf());
        assert(v@[4].wf());
        assert(v@[5].wf());
        assert(v@[6].wf());
        assert(v@[7].wf());
        assert(v@[8].wf());
        assert(v@[9].wf());
        assert(v@[10].wf());
        assert(v@[11].wf());
        assert(v@[12].wf());
        assert(v@[13].wf());
        assert(v@[14].wf());
        assert(v@[15].wf());
        assert(v@[16].wf());
        assert(v@[17].wf());
        assert(v@[18].wf());
        assert(v@[19].wf());
        assert(v@[20].wf());
        assert(v@[21].wf());
        assert(v@[22].wf());
        assert(v@[23].wf());
        assert forall|c: Cmd| #[trigger] covers(v@, c) by {
            match c {
                Cmd::Search => assert(v@[0].cmd == c),
                Cmd::SearchTrack => assert(v@[1].cmd == c),
                Cmd::SearchAlbum => assert(v@[2].cmd == c),
                Cmd::SearchArtist => assert(v@[3].cmd == c),
                Cmd::SearchPlaylist => assert(v@[4].cmd == c),
                Cmd::PlayFirstTrack => assert(v@[5].cmd == c),
                Cmd::PlayFirstAlbum => assert(v@[6].cmd == c),
                Cmd::PlayFirstArtist => assert(v@[7].cmd == c),
                Cmd::PlayFirstPlaylist => assert(v@[8].cmd == c),
                Cmd::SetVolume => assert(v@[9].cmd == c),
                Cmd::Shuffle => assert(v@[10].cmd == c),
                Cmd::Repeat => assert(v@[11].cmd == c),
                Cmd::Next => assert(v@[12].cmd == c),
                Cmd::Prev => assert(v@[13].cmd == c),
                Cmd::SavePlaying => assert(v@[14].cmd == c),
                Cmd::RemovePlaying => assert(v@[15].cmd == c),
                Cmd::CreatePlaylist => assert(v@[16].cmd == c),
                Cmd::EditPlaylist => assert(v@[17].cmd == c),
                Cmd::DeletePlaylist => assert(v@[18].cmd == c),
                Cmd::Help => assert(v@[19].cmd == c),
                Cmd::PlayUserPlaylist => assert(v@[20].cmd == c),
                Cmd::SetDevice => assert(v@[21].cmd == c),
                Cmd::Show => assert(v@[22].cmd == c),
                Cmd::Prompt => assert(v@[23].cmd == c),
            }
        }
    }
    v
}

} // verus!
