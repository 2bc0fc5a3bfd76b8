//! The result shells entered after a search: the listing text for each kind
//! of result, the routing of one line of shell input (blank cancels, a bare
//! number is a play shortcut, anything else goes through the kind's scoped
//! registry), and the index-argument parsing the scoped commands share.

use crate::command::{AlbumCmd, ArtistCmd, PlaylistCmd, TrackCmd};
use crate::handler::{find_handler, some_match, Handler};
use crate::numerals::{
    dec_str, dec_val, digits_only, fmt_index2, is_digits, is_numeral, numeral_digits,
    numeral_value, pad_left, pad_right, parse_index,
};
use crate::playlist::Playlist;
use crate::{join_names, split_command, split_spec, trim, trim_spec};
use vstd::prelude::*;

verus! {

/// One result row of the aggregate search, of whichever kind it is.
pub enum SearchItem {
    Track { name: String, artists: Vec<String>, uri: String },
    Album { name: String, artists: Vec<String>, uri: Option<String>, id: Option<String> },
    Artist { name: String, uri: String },
    Playlist(Playlist),
}

impl SearchItem {
    /// The kind column of the aggregate listing.
    pub open spec fn kind_text(self) -> Seq<char> {
        match self {
            SearchItem::Track { .. } => "track"@,
            SearchItem::Album { .. } => "album"@,
            SearchItem::Artist { .. } => "artist"@,
            SearchItem::Playlist(_) => "playlist"@,
        }
    }

    /// How one result reads: tracks and albums with their joined artists,
    /// artists by name, playlists with their owner or `unknown`.
    pub open spec fn label_text(self) -> Seq<char> {
        match self {
            SearchItem::Track { name, artists, .. } => name@ + " by "@ + join_names(
                artists.deep_view(),
            ),
            SearchItem::Album { name, artists, .. } => name@ + " by "@ + join_names(
                artists.deep_view(),
            ),
            SearchItem::Artist { name, .. } => name@,
            SearchItem::Playlist(p) => p.meta().name@ + " from "@ + match p.meta().owner {
                Some(o) => o@,
                None => "unknown"@,
            },
        }
    }

    /// Render the result's label.
    pub fn label(&self) -> (r: String)
        ensures
            r@ == self.label_text(),
    {
        match self {
            SearchItem::Track { name, artists, .. } => {
                let mut out = name.clone();
                out.append(" by ");
                let joined = crate::join_artists(artists);
                out.append(joined.as_str());
                out
            },
            SearchItem::Album { name, artists, .. } => {
                let mut out = name.clone();
                out.append(" by ");
                let joined = crate::join_artists(artists);
                out.append(joined.as_str());
                out
            },
            SearchItem::Artist { name, .. } => name.clone(),
            SearchItem::Playlist(p) => {
                let mut out = p.name().clone();
                out.append(" from ");
                match p.owner() {
                    Some(o) => out.append(o.as_str()),
                    None => out.append("unknown"),
                }
                out
            },
        }
    }

    /// One row of the aggregate search listing: the index padded to two
    /// columns, the kind padded to eight, then the label.
    pub open spec fn line_spec(self, no: nat) -> Seq<char> {
        "#"@ + pad_left(dec_str(no), 2) + ": "@ + pad_right(self.kind_text(), 8) + " | "@
            + self.label_text()
    }

    /// Render one row of the aggregate search listing.
    pub fn line_text(&self, no: usize) -> (r: String)
        ensures
            r@ == self.line_spec(no as nat),
    {
        let mut out = "#".to_owned();
        let idx = fmt_index2(no);
        out.append(idx.as_str());
        out.append(": ");
        match self {
            SearchItem::Track { .. } => {
                out.append("track   ");
                proof {
                    reveal_strlit("track");
                    reveal_strlit("track   ");
                    assert("track   "@ =~= pad_right("track"@, 8));
                }
            },
            SearchItem::Album { .. } => {
                out.append("album   ");
                proof {
                    reveal_strlit("album");
                    reveal_strlit("album   ");
                    assert("album   "@ =~= pad_right("album"@, 8));
                }
            },
            SearchItem::Artist { .. } => {
                out.append("artist  ");
                proof {
                    reveal_strlit("artist");
                    reveal_strlit("artist  ");
                    assert("artist  "@ =~= pad_right("artist"@, 8));
                }
            },
            SearchItem::Playlist(_) => {
                out.append("playlist");
                proof {
                    reveal_strlit("playlist");
                    assert("playlist"@.len() == 8);
                }
            },
        }
        out.append(" | ");
        let label = self.label();
        out.append(label.as_str());
        out
    }
}

/// One row of a result shell's listing: the index padded to two columns,
/// then the item's label.
pub open spec fn listing_line_spec(label: Seq<char>, no: nat) -> Seq<char> {
    "#"@ + pad_left(dec_str(no), 2) + " | "@ + label
}

/// Render one row of a result shell's listing.
pub fn listing_line(label: &str, no: usize) -> (r: String)
    ensures
        r@ == listing_line_spec(label@, no as nat),
{
    let mut out = "#".to_owned();
    let idx = fmt_index2(no);
    out.append(idx.as_str());
    out.append(" | ");
    out.append(label);
    out
}

/// Where one line of result-shell input goes.
#[derive(Debug, Clone, PartialEq)]
pub enum ShellRoute {
    /// Blank input: leave the shell without selecting anything.
    Cancel,
    /// A bare in-range number: play that item and leave the shell.
    Play { index: usize },
    /// A bare number out of range: show the range hint and stay.
    RangeHint,
    /// The command word matched nothing in the scoped registry.
    Unknown { token: String },
    /// The scoped command at `index` in the registry, with its argument.
    Command { index: usize, arg: Option<String> },
}

/// Route one line of result-shell input over a list of `n_items` results:
/// blank cancels; a bare digit token is the index shortcut, playing in
/// range and hinting out of range; anything else resolves against the
/// kind's scoped registry, first match winning.
pub fn shell_route<T>(handlers: &Vec<Handler<T>>, n_items: usize, line: &str) -> (r: ShellRoute)
    ensures
        trim_spec(line@).len() == 0 ==> r == ShellRoute::Cancel,
        trim_spec(line@).len() > 0 && split_spec(trim_spec(line@)).1 is None && digits_only(
            split_spec(trim_spec(line@)).0,
        ) && dec_val(split_spec(trim_spec(line@)).0) < n_items ==> (r matches ShellRoute::Play {
            index,
        } && index == dec_val(split_spec(trim_spec(line@)).0)),
        trim_spec(line@).len() > 0 && split_spec(trim_spec(line@)).1 is None && digits_only(
            split_spec(trim_spec(line@)).0,
        ) && dec_val(split_spec(trim_spec(line@)).0) >= n_items ==> r == ShellRoute::RangeHint,
        trim_spec(line@).len() > 0 && !(split_spec(trim_spec(line@)).1 is None && digits_only(
            split_spec(trim_spec(line@)).0,
        )) && !some_match(handlers@, split_spec(trim_spec(line@)).0) ==> (r matches
            ShellRoute::Unknown { token } && token@ == split_spec(trim_spec(line@)).0),
        trim_spec(line@).len() > 0 && !(split_spec(trim_spec(line@)).1 is None && digits_only(
            split_spec(trim_spec(line@)).0,
        )) && some_match(handlers@, split_spec(trim_spec(line@)).0) ==> (r matches
            ShellRoute::Command { index, arg } && {
            &&& index < handlers@.len()
            &&& handlers@[index as int].matches_token(split_spec(trim_spec(line@)).0)
            &&& forall|j: int|
                0 <= j < index ==> !handlers@[j].matches_token(split_spec(trim_spec(line@)).0)
            &&& arg is Some <==> split_spec(trim_spec(line@)).1 is Some
            &&& arg matches Some(x) ==> x@ == split_spec(trim_spec(line@)).1->0
        }),
{
    let t = trim(line);
    if t.as_str().unicode_len() == 0 {
        return ShellRoute::Cancel;
    }
    let (token, arg) = split_command(t.as_str());
    if arg.is_none() && is_digits(token.as_str()) {
        match parse_index(token.as_str(), n_items) {
            Some(index) => ShellRoute::Play { index },
            None => ShellRoute::RangeHint,
        }
    } else {
        match find_handler(handlers, token.as_str()) {
            Some(index) => ShellRoute::Command { index, arg },
            None => ShellRoute::Unknown { token },
        }
    }
}

/// What a scoped command decided about its index argument.
#[derive(Debug, Clone, Copy, PartialEq, Eq, Structural)]
pub enum IndexArg {
    /// Missing or unparseable argument: show the command's usage and stay.
    Usage,
    /// A number, but not the index of any result: show the range and stay.
    OutOfRange,
    /// The index of a result.
    Index(usize),
}

/// Parse the index argument every scoped command takes: absent or
/// unparseable shows usage; parseable but out of range shows the range; an
/// index below `n_items` selects that item. A value too large for the
/// machine word fails the parse, as the standard parser does.
pub fn index_arg(n_items: usize, arg: Option<&str>) -> (r: IndexArg)
    ensures
        arg is None ==> r == IndexArg::Usage,
        arg is Some && !is_numeral(arg->0@) ==> r == IndexArg::Usage,
        arg is Some && is_numeral(arg->0@) && dec_val(numeral_digits(arg->0@)) > usize::MAX ==> r
            == IndexArg::Usage,
        arg is Some && is_numeral(arg->0@) && n_items <= dec_val(numeral_digits(arg->0@))
            <= usize::MAX ==> r == IndexArg::OutOfRange,
        arg is Some && is_numeral(arg->0@) && dec_val(numeral_digits(arg->0@)) < n_items ==> r
            == IndexArg::Index(dec_val(numeral_digits(arg->0@)) as usize),
{
    match arg {
        None => IndexArg::Usage,
        Some(a) => match numeral_value(a) {
            None => IndexArg::Usage,
            Some(v) => {
                if v < n_items {
                    IndexArg::Index(v)
                } else {
                    IndexArg::OutOfRange
                }
            },
        },
    }
}

/// What the save command decided about its `<N> [playlist]` argument.
#[derive(Debug, Clone, PartialEq)]
pub enum SaveArg {
    /// Missing or unparseable index: show the usage and stay.
    Usage,
    /// An index out of range: show the range and stay.
    OutOfRange,
    /// The selected item, and the playlist name that followed, if any.
    Chosen(usize, Option<String>),
}

/// Parse the save command's argument: the leading word is the index, and
/// whatever follows the first whitespace run names the target playlist.
pub fn save_arg(n_items: usize, arg: Option<&str>) -> (r: SaveArg)
    ensures
        arg is None ==> r == SaveArg::Usage,
        arg is Some && !is_numeral(split_spec(arg->0@).0) ==> r == SaveArg::Usage,
        arg is Some && is_numeral(split_spec(arg->0@).0) && dec_val(
            numeral_digits(split_spec(arg->0@).0),
        ) > usize::MAX ==> r == SaveArg::Usage,
        arg is Some && is_numeral(split_spec(arg->0@).0) && n_items <= dec_val(
            numeral_digits(split_spec(arg->0@).0),
        ) <= usize::MAX ==> r == SaveArg::OutOfRange,
        arg is Some && is_numeral(split_spec(arg->0@).0) && dec_val(
            numeral_digits(split_spec(arg->0@).0),
        ) < n_items ==> (r matches SaveArg::Chosen(index, rest) && {
            &&& index == dec_val(numeral_digits(split_spec(arg->0@).0))
            &&& rest is Some <==> split_spec(arg->0@).1 is Some
            &&& rest matches Some(x) ==> x@ == split_spec(arg->0@).1->0
        }),
{
    match arg {
        None => SaveArg::Usage,
        Some(a) => {
            let (token, rest) = split_command(a);
            match numeral_value(token.as_str()) {
                None => SaveArg::Usage,
                Some(v) => {
                    if v < n_items {
                        SaveArg::Chosen(v, rest)
                    } else {
                        SaveArg::OutOfRange
                    }
                },
            }
        },
    }
}

/// Find the first descriptor of the track table carrying `cmd`.
pub fn describe_track(handlers: &Vec<Handler<TrackCmd>>, cmd: TrackCmd) -> (r: Option<usize>)
    ensures
        r matches Some(i) ==> i < handlers@.len() && handlers@[i as int].cmd == cmd && forall|
            j: int,
        | 0 <= j < i ==> handlers@[j].cmd != cmd,
        r is None ==> forall|j: int| 0 <= j < handlers@.len() ==> handlers@[j].cmd != cmd,
{
    let n = handlers.len();
    let mut i: usize = 0;
    while i < n
        invariant
            i <= n,
            n == handlers@.len(),
            forall|j: int| 0 <= j < i ==> handlers@[j].cmd != cmd,
        decreases n - i,
    {
        if handlers[i].cmd == cmd {
            return Some(i);
        }
        i += 1;
    }
    None
}

/// Find the first descriptor of the album table carrying `cmd`.
pub fn describe_album(handlers: &Vec<Handler<AlbumCmd>>, cmd: AlbumCmd) -> (r: Option<usize>)
    ensures
        r matches Some(i) ==> i < handlers@.len() && handlers@[i as int].cmd == cmd && forall|
            j: int,
        | 0 <= j < i ==> handlers@[j].cmd != cmd,
        r is None ==> forall|j: int| 0 <= j < handlers@.len() ==> handlers@[j].cmd != cmd,
{
    let n = handlers.len();
    let mut i: usize = 0;
    while i < n
        invariant
            i <= n,
            n == handlers@.len(),
            forall|j: int| 0 <= j < i ==> handlers@[j].cmd != cmd,
        decreases n - i,
    {
        if handlers[i].cmd == cmd {
            return Some(i);
        }
        i += 1;
    }
    None
}

/// Find the first descriptor of the artist table carrying `cmd`.
pub fn describe_artist(handlers: &Vec<Handler<ArtistCmd>>, cmd: ArtistCmd) -> (r: Option<usize>)
    ensures
        r matches Some(i) ==> i < handlers@.len() && handlers@[i as int].cmd == cmd && forall|
            j: int,
        | 0 <= j < i ==> handlers@[j].cmd != cmd,
        r is None ==> forall|j: int| 0 <= j < handlers@.len() ==> handlers@[j].cmd != cmd,
{
    let n = handlers.len();
    let mut i: usize = 0;
    while i < n
        invariant
            i <= n,
            n == handlers@.len(),
            forall|j: int| 0 <= j < i ==> handlers@[j].cmd != cmd,
        decreases n - i,
    {
        if handlers[i].cmd == cmd {
            return Some(i);
        }
        i += 1;
    }
    None
}

/// Find the first descriptor of the playlist table carrying `cmd`.
pub fn describe_playlist(
    handlers: &Vec<Handler<PlaylistCmd>>,
    cmd: PlaylistCmd,
) -> (r: Option<usize>)
    ensures
        r matches Some(i) ==> i < handlers@.len() && handlers@[i as int].cmd == cmd && forall|
            j: int,
        | 0 <= j < i ==> handlers@[j].cmd != cmd,
        r is None ==> forall|j: int| 0 <= j < handlers@.len() ==> handlers@[j].cmd != cmd,
{
    let n = handlers.len();
    let mut i: usize = 0;
    while i < n
        invariant
            i <= n,
            n == handlers@.len(),
            forall|j: int| 0 <= j < i ==> handlers@[j].cmd != cmd,
        decreases n - i,
    {
        if handlers[i].cmd == cmd {
            return Some(i);
        }
        i += 1;
    }
    None
}


/// Of the track shell's actions, only play leaves the shell; queue, save,
/// like and help keep it open.
pub fn track_cmd_exits(cmd: TrackCmd) -> (r: bool)
    ensures
        r == (cmd == TrackCmd::Play),
{
    matches!(cmd, TrackCmd::Play)
}

/// Of the album shell's actions, only play leaves the shell.
pub fn album_cmd_exits(cmd: AlbumCmd) -> (r: bool)
    ensures
        r == (cmd == AlbumCmd::Play),
{
    matches!(cmd, AlbumCmd::Play)
}

/// Of the artist shell's actions, only play leaves the shell.
pub fn artist_cmd_exits(cmd: ArtistCmd) -> (r: bool)
    ensures
        r == (cmd == ArtistCmd::Play),
{
    matches!(cmd, ArtistCmd::Play)
}

/// Of the playlist shell's actions, only play leaves the shell.
pub fn playlist_cmd_exits(cmd: PlaylistCmd) -> (r: bool)
    ensures
        r == (cmd == PlaylistCmd::Play),
{
    matches!(cmd, PlaylistCmd::Play)
}

} // verus!
