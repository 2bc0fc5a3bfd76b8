//! The top-level dispatcher: session state, the per-line routing decision of
//! the prompt loop, and the pure decision logic of the player and library
//! commands. Everything here is a function from plain values to plain
//! values; the surrounding program performs the service calls and console
//! reads these decisions call for.

pub mod search_cmd;

use crate::handler::{some_match, Handler};
use crate::numerals::{dec_val, digits_only, is_numeral, numeral_digits, parse_volume};
use crate::playlist::Playlist;
use crate::{
    eq_fold, equalfold, is_space, is_space_char, space_run, split_command, split_spec, str_eq,
    trim, trim_spec,
};
use vstd::prelude::*;

verus! {

/// The transport call the blank-line toggle issues.
#[derive(Debug, Clone, Copy, PartialEq, Eq, Structural)]
pub enum PlaybackAction {
    Resume,
    Pause,
}

/// A playback device as the dispatcher reads it: identifier, display name,
/// reported volume, and whether the service calls it active.
#[derive(Clone)]
pub struct DeviceInfo {
    pub id: String,
    pub name: String,
    pub volume_percent: u8,
    pub is_active: bool,
}

/// Session state owned by the top-level dispatcher.
pub struct Session {
    pub prompt: String,
    pub playing: bool,
    pub last_pl: Option<Playlist>,
    pub pl_cache: Option<Vec<Playlist>>,
    pub device: Option<String>,
}

impl Session {
    /// A fresh session: the given prompt, not playing, nothing cached.
    pub fn new(prompt: String) -> (s: Session)
        ensures
            s.prompt == prompt,
            !s.playing,
            s.last_pl is None,
            s.pl_cache is None,
            s.device is None,
    {
        Session { prompt, playing: false, last_pl: None, pl_cache: None, device: None }
    }

    /// The blank-line fast path: flip the playback flag and say which
    /// transport call to issue — resume when now playing, pause when not.
    pub fn toggle(&mut self) -> (r: PlaybackAction)
        ensures
            final(self).playing == !old(self).playing,
            final(self).prompt == old(self).prompt,
            final(self).last_pl == old(self).last_pl,
            final(self).pl_cache == old(self).pl_cache,
            final(self).device == old(self).device,
            r == (if final(self).playing {
                PlaybackAction::Resume
            } else {
                PlaybackAction::Pause
            }),
    {
        self.playing = !self.playing;
        if self.playing {
            PlaybackAction::Resume
        } else {
            PlaybackAction::Pause
        }
    }

    /// Record the playback flag reported by, or implied by, a service call.
    pub fn set_playing(&mut self, playing: bool)
        ensures
            final(self).playing == playing,
            final(self).prompt == old(self).prompt,
            final(self).last_pl == old(self).last_pl,
            final(self).pl_cache == old(self).pl_cache,
            final(self).device == old(self).device,
    {
        self.playing = playing;
    }

    /// Record the sticky device override the device command chose.
    pub fn select_device(&mut self, device: Option<String>)
        ensures
            final(self).device == device,
            final(self).prompt == old(self).prompt,
            final(self).playing == old(self).playing,
            final(self).last_pl == old(self).last_pl,
            final(self).pl_cache == old(self).pl_cache,
    {
        self.device = device;
    }

    /// Change the prompt text: the argument is trimmed and one space
    /// appended; an argument that trims to nothing changes nothing, and the
    /// caller reports the missing argument.
    pub fn set_prompt(&mut self, s: &str) -> (changed: bool)
        ensures
            trim_spec(s@).len() == 0 ==> !changed && *final(self) == *old(self),
            trim_spec(s@).len() > 0 ==> changed && final(self).prompt@ == trim_spec(s@) + " "@
                && final(self).playing == old(self).playing && final(self).last_pl == old(
                self,
            ).last_pl && final(self).pl_cache == old(self).pl_cache && final(self).device == old(
                self,
            ).device,
    {
        let mut t = trim(s);
        if t.as_str().unicode_len() == 0 {
            false
        } else {
            t.append(" ");
            self.prompt = t;
            true
        }
    }

    /// Record the playlist listing just fetched, filling the lazy cache.
    pub fn fill_cache(&mut self, pls: Vec<Playlist>)
        ensures
            final(self).pl_cache matches Some(c) && c@ == pls@,
            final(self).prompt == old(self).prompt,
            final(self).playing == old(self).playing,
            final(self).last_pl == old(self).last_pl,
            final(self).device == old(self).device,
    {
        self.pl_cache = Some(pls);
    }

    /// A playlist was just played: remember it and mark playback running.
    pub fn played_playlist(&mut self, pl: Playlist)
        ensures
            final(self).last_pl matches Some(p) && p == pl,
            final(self).playing,
            final(self).prompt == old(self).prompt,
            final(self).pl_cache == old(self).pl_cache,
            final(self).device == old(self).device,
    {
        self.last_pl = Some(pl);
        self.playing = true;
    }

    /// A playlist was created: prepend it to the cached listing, when one is
    /// materialized, so the cache stays coherent without a refetch.
    pub fn playlist_created(&mut self, pl: Playlist)
        ensures
            old(self).pl_cache is None ==> *final(self) == *old(self),
            old(self).pl_cache matches Some(c) ==> final(self).pl_cache matches Some(d) && d@
                == seq![pl].add(c@),
            final(self).prompt == old(self).prompt,
            final(self).playing == old(self).playing,
            final(self).last_pl == old(self).last_pl,
            final(self).device == old(self).device,
    {
        match &mut self.pl_cache {
            Some(c) => {
                c.insert(0, pl);
                proof {
                    assert(self.pl_cache->0@ =~= seq![pl].add(old(self).pl_cache->0@));
                }
            },
            None => {},
        }
    }
}


/// The playlist's identifier equals `id`.
pub open spec fn pl_has_id(p: Playlist, id: Seq<char>) -> bool {
    p.meta().id@ == id
}

/// Find the cache entry with the given playlist id, scanning in order.
fn find_pl_by_id(pls: &Vec<Playlist>, id: &str) -> (r: Option<usize>)
    ensures
        r matches Some(i) ==> i < pls@.len() && pl_has_id(pls@[i as int], id@) && forall|j: int|
            0 <= j < i ==> !pl_has_id(pls@[j], id@),
        r is None ==> forall|j: int| 0 <= j < pls@.len() ==> !pl_has_id(pls@[j], id@),
{
    let n = pls.len();
    let mut i: usize = 0;
    while i < n
        invariant
            i <= n,
            n == pls@.len(),
            forall|j: int| 0 <= j < i ==> !pl_has_id(pls@[j], id@),
        decreases n - i,
    {
        if str_eq(pls[i].id().as_str(), id) {
            return Some(i);
        }
        i += 1;
    }
    None
}

/// Find the first cached playlist whose name case-insensitively equals
/// `name`, as explicit playlist arguments are resolved.
pub fn find_playlist_by_name(pls: &Vec<Playlist>, name: &str) -> (r: Option<usize>)
    ensures
        r matches Some(i) ==> i < pls@.len() && eq_fold(pls@[i as int].meta().name@, name@)
            && forall|j: int| 0 <= j < i ==> !eq_fold(pls@[j].meta().name@, name@),
        r is None ==> forall|j: int|
            0 <= j < pls@.len() ==> !eq_fold(pls@[j].meta().name@, name@),
{
    let n = pls.len();
    let mut i: usize = 0;
    while i < n
        invariant
            i <= n,
            n == pls@.len(),
            forall|j: int| 0 <= j < i ==> !eq_fold(pls@[j].meta().name@, name@),
        decreases n - i,
    {
        if pls[i].name_eq(name) {
            return Some(i);
        }
        i += 1;
    }
    None
}

/// Find the device the service reports as active.
pub fn find_active(devs: &Vec<DeviceInfo>) -> (r: Option<usize>)
    ensures
        r matches Some(i) ==> i < devs@.len() && devs@[i as int].is_active && forall|j: int|
            0 <= j < i ==> !devs@[j].is_active,
        r is None ==> forall|j: int| 0 <= j < devs@.len() ==> !devs@[j].is_active,
{
    let n = devs.len();
    let mut i: usize = 0;
    while i < n
        invariant
            i <= n,
            n == devs@.len(),
            forall|j: int| 0 <= j < i ==> !devs@[j].is_active,
        decreases n - i,
    {
        if devs[i].is_active {
            return Some(i);
        }
        i += 1;
    }
    None
}

/// Find the first device whose name equals `name` exactly — device
/// resolution is case-sensitive, unlike playlist resolution.
pub fn find_device_by_name(devs: &Vec<DeviceInfo>, name: &str) -> (r: Option<usize>)
    ensures
        r matches Some(i) ==> i < devs@.len() && devs@[i as int].name@ == name@ && forall|j: int|
            0 <= j < i ==> devs@[j].name@ != name@,
        r is None ==> forall|j: int| 0 <= j < devs@.len() ==> devs@[j].name@ != name@,
{
    let n = devs.len();
    let mut i: usize = 0;
    while i < n
        invariant
            i <= n,
            n == devs@.len(),
            forall|j: int| 0 <= j < i ==> devs@[j].name@ != name@,
        decreases n - i,
    {
        if str_eq(devs[i].name.as_str(), name) {
            return Some(i);
        }
        i += 1;
    }
    None
}

impl Session {
    /// A playlist was deleted: drop the matching cache entry, and clear the
    /// last-played playlist when it was the deleted one.
    pub fn playlist_deleted(&mut self, id: &str)
        ensures
            old(self).last_pl is None ==> final(self).last_pl is None,
            old(self).last_pl matches Some(p) ==> final(self).last_pl == (if pl_has_id(p, id@) {
                Option::<Playlist>::None
            } else {
                old(self).last_pl
            }),
            old(self).pl_cache is None ==> final(self).pl_cache is None,
            old(self).pl_cache matches Some(c) ==> final(self).pl_cache matches Some(d) && (if (
            forall|j: int| 0 <= j < c@.len() ==> !pl_has_id(c@[j], id@)) {
                d@ == c@
            } else {
                exists|i: int|
                    0 <= i < c@.len() && pl_has_id(c@[i], id@) && (forall|j: int|
                        0 <= j < i ==> !pl_has_id(c@[j], id@)) && d@ == c@.remove(i)
            }),
            final(self).prompt == old(self).prompt,
            final(self).playing == old(self).playing,
            final(self).device == old(self).device,
    {
        let clear = match &self.last_pl {
            Some(p) => str_eq(p.id().as_str(), id),
            None => false,
        };
        if clear {
            self.last_pl = None;
        }
        let idx = match &self.pl_cache {
            Some(c) => find_pl_by_id(c, id),
            None => None,
        };
        if let Some(i) = idx {
            match &mut self.pl_cache {
                Some(c) => {
                    c.remove(i);
                },
                None => {},
            }
        }
    }
}


impl Session {
    /// A playlist's details were edited: patch the cached entry's name in
    /// place. Nothing else about the entry, or the cache, changes.
    pub fn playlist_renamed(&mut self, id: &str, name: &str)
        ensures
            old(self).pl_cache is None ==> final(self).pl_cache is None,
            old(self).pl_cache matches Some(c) ==> final(self).pl_cache matches Some(d) && (if (
            forall|j: int| 0 <= j < c@.len() ==> !pl_has_id(c@[j], id@)) {
                d@ == c@
            } else {
                exists|i: int|
                    {
                        &&& 0 <= i < c@.len()
                        &&& pl_has_id(c@[i], id@)
                        &&& (forall|j: int| 0 <= j < i ==> !pl_has_id(c@[j], id@))
                        &&& d@.len() == c@.len()
                        &&& (forall|j: int| 0 <= j < c@.len() && j != i ==> d@[j] == c@[j])
                        &&& d@[i].meta().name@ == name@
                        &&& d@[i].meta().id == c@[i].meta().id
                        &&& d@[i].meta().uri == c@[i].meta().uri
                        &&& d@[i].meta().owner == c@[i].meta().owner
                        &&& (d@[i] is Full <==> c@[i] is Full)
                        &&& d@[i].track_list() == c@[i].track_list()
                    }
            }),
            final(self).prompt == old(self).prompt,
            final(self).playing == old(self).playing,
            final(self).last_pl == old(self).last_pl,
            final(self).device == old(self).device,
    {
        let idx = match &self.pl_cache {
            Some(c) => find_pl_by_id(c, id),
            None => None,
        };
        if let Some(i) = idx {
            match &mut self.pl_cache {
                Some(c) => {
                    let ghost before = c@;
                    let mut p = c.remove(i);
                    p.set_name(name);
                    c.insert(i, p);
                    proof {
                        assert(forall|j: int|
                            0 <= j < before.len() && j != i ==> c@[j] == before[j]);
                    }
                },
                None => {},
            }
        }
    }

    /// A summary cache entry was materialized: upgrade it in place with the
    /// track listing that was fetched, so later membership checks need no
    /// refetch. An entry already detailed keeps its listing.
    pub fn playlist_promoted(&mut self, id: &str, tracks: Vec<crate::playlist::TrackRef>)
        ensures
            old(self).pl_cache is None ==> final(self).pl_cache is None,
            old(self).pl_cache matches Some(c) ==> final(self).pl_cache matches Some(d) && (if (
            forall|j: int| 0 <= j < c@.len() ==> !pl_has_id(c@[j], id@)) {
                d@ == c@
            } else {
                exists|i: int|
                    {
                        &&& 0 <= i < c@.len()
                        &&& pl_has_id(c@[i], id@)
                        &&& (forall|j: int| 0 <= j < i ==> !pl_has_id(c@[j], id@))
                        &&& d@.len() == c@.len()
                        &&& (forall|j: int| 0 <= j < c@.len() && j != i ==> d@[j] == c@[j])
                        &&& d@[i].meta() == c@[i].meta()
                        &&& d@[i] is Full
                        &&& (c@[i] is Simple ==> d@[i].track_list() == tracks@)
                        &&& (c@[i] is Full ==> d@[i].track_list() == c@[i].track_list())
                    }
            }),
            final(self).prompt == old(self).prompt,
            final(self).playing == old(self).playing,
            final(self).last_pl == old(self).last_pl,
            final(self).device == old(self).device,
    {
        let idx = match &self.pl_cache {
            Some(c) => find_pl_by_id(c, id),
            None => None,
        };
        if let Some(i) = idx {
            match &mut self.pl_cache {
                Some(c) => {
                    let ghost before = c@;
                    let mut p = c.remove(i);
                    p.make_full(tracks);
                    c.insert(i, p);
                    proof {
                        assert(forall|j: int|
                            0 <= j < before.len() && j != i ==> c@[j] == before[j]);
                    }
                },
                None => {},
            }
        }
    }

    /// The currently playing track was saved to a playlist: prepend it to
    /// the cached entry's materialized listing. A summary entry is left as
    /// it is — the save path materializes the entry before it gets here.
    pub fn playlist_track_added(&mut self, id: &str, t: crate::playlist::TrackRef)
        ensures
            old(self).pl_cache is None ==> final(self).pl_cache is None,
            old(self).pl_cache matches Some(c) ==> final(self).pl_cache matches Some(d) && (if (
            forall|j: int| 0 <= j < c@.len() ==> !pl_has_id(c@[j], id@)) {
                d@ == c@
            } else {
                exists|i: int|
                    {
                        &&& 0 <= i < c@.len()
                        &&& pl_has_id(c@[i], id@)
                        &&& (forall|j: int| 0 <= j < i ==> !pl_has_id(c@[j], id@))
                        &&& d@.len() == c@.len()
                        &&& (forall|j: int| 0 <= j < c@.len() && j != i ==> d@[j] == c@[j])
                        &&& (c@[i] is Full ==> d@[i].meta() == c@[i].meta() && d@[i] is Full && d@[
                            i
                        ].track_list() == seq![t].add(c@[i].track_list()))
                        &&& (c@[i] is Simple ==> d@[i] == c@[i])
                    }
            }),
            final(self).prompt == old(self).prompt,
            final(self).playing == old(self).playing,
            final(self).last_pl == old(self).last_pl,
            final(self).device == old(self).device,
    {
        let idx = match &self.pl_cache {
            Some(c) => find_pl_by_id(c, id),
            None => None,
        };
        if let Some(i) = idx {
            match &mut self.pl_cache {
                Some(c) => {
                    let ghost before = c@;
                    let mut p = c.remove(i);
                    if !p.is_simple() {
                        p.add_track(t);
                    }
                    c.insert(i, p);
                    proof {
                        assert(forall|j: int|
                            0 <= j < before.len() && j != i ==> c@[j] == before[j]);
                    }
                },
                None => {},
            }
        }
    }

    /// The currently playing track was removed from a playlist: drop every
    /// entry with its key from the cached entry's materialized listing.
    pub fn playlist_track_removed(&mut self, id: &str, t: &crate::playlist::TrackRef)
        ensures
            old(self).pl_cache is None ==> final(self).pl_cache is None,
            old(self).pl_cache matches Some(c) ==> final(self).pl_cache matches Some(d) && (if (
            forall|j: int| 0 <= j < c@.len() ==> !pl_has_id(c@[j], id@)) {
                d@ == c@
            } else {
                exists|i: int|
                    {
                        &&& 0 <= i < c@.len()
                        &&& pl_has_id(c@[i], id@)
                        &&& (forall|j: int| 0 <= j < i ==> !pl_has_id(c@[j], id@))
                        &&& d@.len() == c@.len()
                        &&& (forall|j: int| 0 <= j < c@.len() && j != i ==> d@[j] == c@[j])
                        &&& (c@[i] is Full ==> d@[i].meta() == c@[i].meta() && d@[i] is Full && d@[
                            i
                        ].track_list() == c@[i].track_list().filter(
                            |x: crate::playlist::TrackRef| x.key() != t.key(),
                        ))
                        &&& (c@[i] is Simple ==> d@[i] == c@[i])
                    }
            }),
            final(self).prompt == old(self).prompt,
            final(self).playing == old(self).playing,
            final(self).last_pl == old(self).last_pl,
            final(self).device == old(self).device,
    {
        let idx = match &self.pl_cache {
            Some(c) => find_pl_by_id(c, id),
            None => None,
        };
        if let Some(i) = idx {
            match &mut self.pl_cache {
                Some(c) => {
                    let ghost before = c@;
                    let mut p = c.remove(i);
                    if !p.is_simple() {
                        p.remove_track(t);
                    }
                    c.insert(i, p);
                    proof {
                        assert(forall|j: int|
                            0 <= j < before.len() && j != i ==> c@[j] == before[j]);
                    }
                },
                None => {},
            }
        }
    }
}


/// A word that switches something on: `on`, `true` or `yes`, in any case.
pub open spec fn is_on_word(s: Seq<char>) -> bool {
    eq_fold(s, "on"@) || eq_fold(s, "true"@) || eq_fold(s, "yes"@)
}

/// A word that switches something off: `off`, `false` or `no`, in any case.
pub open spec fn is_off_word(s: Seq<char>) -> bool {
    eq_fold(s, "off"@) || eq_fold(s, "false"@) || eq_fold(s, "no"@)
}

/// Parse an on/off argument; on-words are checked first.
pub fn parse_on_off(s: &str) -> (r: Option<bool>)
    ensures
        is_on_word(s@) ==> r == Some(true),
        !is_on_word(s@) && is_off_word(s@) ==> r == Some(false),
        !is_on_word(s@) && !is_off_word(s@) ==> r is None,
{
    if equalfold(s, "on") || equalfold(s, "true") || equalfold(s, "yes") {
        Some(true)
    } else if equalfold(s, "off") || equalfold(s, "false") || equalfold(s, "no") {
        Some(false)
    } else {
        None
    }
}

/// An affirmative answer to a confirmation prompt: `y`, `yes` or `true`.
pub open spec fn is_yes_word(s: Seq<char>) -> bool {
    eq_fold(s, "y"@) || eq_fold(s, "yes"@) || eq_fold(s, "true"@)
}

/// A negative answer to a confirmation prompt: `n`, `no` or `false`.
pub open spec fn is_no_word(s: Seq<char>) -> bool {
    eq_fold(s, "n"@) || eq_fold(s, "no"@) || eq_fold(s, "false"@)
}

/// Classify one answer to a yes/no prompt; anything unrecognized is `None`
/// and the prompt is asked again.
pub fn parse_yes_no(s: &str) -> (r: Option<bool>)
    ensures
        is_yes_word(s@) ==> r == Some(true),
        !is_yes_word(s@) && is_no_word(s@) ==> r == Some(false),
        !is_yes_word(s@) && !is_no_word(s@) ==> r is None,
{
    if equalfold(s, "y") || equalfold(s, "yes") || equalfold(s, "true") {
        Some(true)
    } else if equalfold(s, "n") || equalfold(s, "no") || equalfold(s, "false") {
        Some(false)
    } else {
        None
    }
}

/// What the volume command decides from its argument.
#[derive(Debug, Clone, Copy, PartialEq, Eq, Structural)]
pub enum VolumeCommand {
    /// No argument: show the usage and make no call.
    Usage,
    /// Not a number a byte can hold: show the fixed error and make no call.
    Invalid,
    /// Set the volume to this percentage.
    SetTo(u8),
}

/// Decide the explicit volume-set command: the argument must parse as an
/// unsigned byte; values above 100 are clamped to 100 rather than rejected;
/// anything unparseable performs no call.
pub fn set_volume_decision(arg: Option<&str>) -> (r: VolumeCommand)
    ensures
        arg is None ==> r == VolumeCommand::Usage,
        arg is Some && !(is_numeral(arg->0@) && dec_val(numeral_digits(arg->0@)) <= 255) ==> r
            == VolumeCommand::Invalid,
        arg is Some && is_numeral(arg->0@) && dec_val(numeral_digits(arg->0@)) <= 255 ==> r
            == VolumeCommand::SetTo(
            (if dec_val(numeral_digits(arg->0@)) > 100 {
                100 as nat
            } else {
                dec_val(numeral_digits(arg->0@))
            }) as u8,
        ),
{
    match arg {
        None => VolumeCommand::Usage,
        Some(a) => match parse_volume(a) {
            None => VolumeCommand::Invalid,
            Some(v) => VolumeCommand::SetTo(if v > 100 {
                100
            } else {
                v
            }),
        },
    }
}

/// The volume a `+N`/`-N` shorthand targets: the active device's current
/// volume moved by the delta and clamped to the 0..=100 range.
pub open spec fn volume_clamp(cur: int, down: bool, amount: int) -> int {
    let t = if down {
        cur - amount
    } else {
        cur + amount
    };
    if t < 0 {
        0
    } else if t > 100 {
        100
    } else {
        t
    }
}

/// Compute the clamped target volume for a volume delta.
pub fn volume_target(cur: u8, down: bool, amount: u16) -> (t: u8)
    ensures
        t == volume_clamp(cur as int, down, amount as int),
{
    let c = cur as u32;
    let a = amount as u32;
    let t = if down {
        if a >= c {
            0
        } else {
            c - a
        }
    } else {
        c + a
    };
    if t > 100 {
        100
    } else {
        t as u8
    }
}

/// A delta is capped at 300 when it is routed: with the current volume at
/// most 255, any larger delta already drives the target to the same bound.
pub proof fn lemma_delta_saturation(cur: int, down: bool, d: int)
    requires
        0 <= cur <= 255,
        d >= 300,
    ensures
        volume_clamp(cur, down, 300) == volume_clamp(cur, down, d),
{
}

/// What the shuffle command decides.
#[derive(Debug, Clone, Copy, PartialEq, Eq, Structural)]
pub enum ShuffleDecision {
    /// Unrecognized argument: show the usage and make no call.
    Usage,
    /// The desired state already holds: report it and make no call.
    Report(bool),
    /// Issue a shuffle call with this state.
    Apply(bool),
    /// No argument and no reported state: tell the user and make no call.
    CannotDetermine,
}

/// The shuffle contract: with no argument, toggle the reported state; with
/// an explicit state, only issue a change when it differs from the reported
/// one; with an explicit state and nothing reported, apply it
/// unconditionally; with neither, do nothing but inform.
pub open spec fn spec_shuffle(arg: Option<Seq<char>>, reported: Option<bool>) -> ShuffleDecision {
    if arg is Some && !is_on_word(arg->0) && !is_off_word(arg->0) {
        ShuffleDecision::Usage
    } else {
        let desired = if arg is Some {
            if is_on_word(arg->0) {
                Some(true)
            } else {
                Some(false)
            }
        } else {
            None
        };
        match reported {
            Some(cur) => if desired matches Some(x) && x == cur {
                ShuffleDecision::Report(cur)
            } else {
                ShuffleDecision::Apply(!cur)
            },
            None => match desired {
                Some(b) => ShuffleDecision::Apply(b),
                None => ShuffleDecision::CannotDetermine,
            },
        }
    }
}

/// Decide the shuffle command from its argument and the shuffle state the
/// service currently reports, if it could be fetched.
pub fn shuffle_decision(arg: Option<&str>, reported: Option<bool>) -> (r: ShuffleDecision)
    ensures
        r == spec_shuffle(
            match arg {
                Some(a) => Some(a@),
                None => None,
            },
            reported,
        ),
{
    let desired = match arg {
        Some(a) => match parse_on_off(a) {
            Some(b) => Some(b),
            None => {
                return ShuffleDecision::Usage;
            },
        },
        None => None,
    };
    match reported {
        Some(cur) => match desired {
            Some(x) if x == cur => ShuffleDecision::Report(cur),
            _ => ShuffleDecision::Apply(!cur),
        },
        None => match desired {
            Some(b) => ShuffleDecision::Apply(b),
            None => ShuffleDecision::CannotDetermine,
        },
    }
}

/// The three repeat states the service knows.
#[derive(Debug, Clone, Copy, PartialEq, Eq, Structural)]
pub enum RepeatMode {
    Off,
    Track,
    Context,
}

/// What the repeat command decides.
#[derive(Debug, Clone, Copy, PartialEq, Eq, Structural)]
pub enum RepeatDecision {
    /// Missing or unrecognized argument: show the usage and make no call.
    Usage,
    /// Issue a repeat call with this mode.
    Apply(RepeatMode),
}

/// A word naming the repeat-off state.
pub open spec fn is_repeat_off_word(s: Seq<char>) -> bool {
    eq_fold(s, "off"@) || eq_fold(s, "false"@) || eq_fold(s, "no"@)
}

/// A word naming the repeat-context state.
pub open spec fn is_repeat_context_word(s: Seq<char>) -> bool {
    eq_fold(s, "context"@) || eq_fold(s, "playlist"@) || eq_fold(s, "album"@) || eq_fold(s, "pl"@)
}

/// A word naming the repeat-track state.
pub open spec fn is_repeat_track_word(s: Seq<char>) -> bool {
    eq_fold(s, "track"@) || eq_fold(s, "on"@) || eq_fold(s, "true"@) || eq_fold(s, "yes"@)
}

/// Decide the repeat command: an explicit target is required, drawn from a
/// fixed synonym set per state; anything else shows the usage and performs
/// no call.
pub fn repeat_decision(arg: Option<&str>) -> (r: RepeatDecision)
    ensures
        arg is None ==> r == RepeatDecision::Usage,
        arg matches Some(a) ==> {
            &&& is_repeat_off_word(a@) ==> r == RepeatDecision::Apply(RepeatMode::Off)
            &&& !is_repeat_off_word(a@) && is_repeat_context_word(a@) ==> r == RepeatDecision::Apply(
                RepeatMode::Context,
            )
            &&& !is_repeat_off_word(a@) && !is_repeat_context_word(a@) && is_repeat_track_word(a@)
                ==> r == RepeatDecision::Apply(RepeatMode::Track)
            &&& !is_repeat_off_word(a@) && !is_repeat_context_word(a@) && !is_repeat_track_word(a@)
                ==> r == RepeatDecision::Usage
        },
{
    match arg {
        None => RepeatDecision::Usage,
        Some(a) => {
            if equalfold(a, "off") || equalfold(a, "false") || equalfold(a, "no") {
                RepeatDecision::Apply(RepeatMode::Off)
            } else if equalfold(a, "context") || equalfold(a, "playlist") || equalfold(a, "album")
                || equalfold(a, "pl") {
                RepeatDecision::Apply(RepeatMode::Context)
            } else if equalfold(a, "track") || equalfold(a, "on") || equalfold(a, "true")
                || equalfold(a, "yes") {
                RepeatDecision::Apply(RepeatMode::Track)
            } else {
                RepeatDecision::Usage
            }
        },
    }
}

/// What the show command displays.
#[derive(Debug, Clone, PartialEq)]
pub enum ShowTarget {
    /// No argument: the full playback status.
    Playback,
    /// The currently playing item.
    Playing,
    /// The user's playlist library.
    Library,
    /// One playlist, by name.
    Playlist(String),
}

/// Decide the show command: `playing`/`track` show the current item,
/// `lib`/`pl` the library, no argument the playback status, and anything
/// else names a playlist. The words here are exact, not case-folded.
pub fn show_target(arg: Option<&str>) -> (r: ShowTarget)
    ensures
        arg is None ==> r == ShowTarget::Playback,
        arg matches Some(a) && (a@ == "playing"@ || a@ == "track"@) ==> r == ShowTarget::Playing,
        arg matches Some(a) && !(a@ == "playing"@ || a@ == "track"@) && (a@ == "lib"@ || a@
            == "pl"@) ==> r == ShowTarget::Library,
        arg is Some && !(arg->0@ == "playing"@ || arg->0@ == "track"@) && !(arg->0@ == "lib"@
            || arg->0@ == "pl"@) ==> (r matches ShowTarget::Playlist(p) && p@ == arg->0@),
{
    match arg {
        None => ShowTarget::Playback,
        Some(a) => {
            if str_eq(a, "playing") || str_eq(a, "track") {
                ShowTarget::Playing
            } else if str_eq(a, "lib") || str_eq(a, "pl") {
                ShowTarget::Library
            } else {
                ShowTarget::Playlist(a.to_owned())
            }
        },
    }
}

/// Pick the context to start for an album: its URI when present, else its
/// id; an album with neither cannot be played.
pub fn album_play_target(uri: &Option<String>, id: &Option<String>) -> (r: Option<String>)
    ensures
        uri matches Some(u) ==> r matches Some(x) && x@ == u@,
        uri is None && id is Some ==> (r matches Some(x) && x@ == id->0@),
        uri is None && id is None ==> r is None,
{
    match uri {
        Some(u) => Some(u.clone()),
        None => match id {
            Some(v) => Some(v.clone()),
            None => None,
        },
    }
}


/// The trimmed line starts with a `+` or `-` sign.
pub open spec fn vol_signed(t: Seq<char>) -> bool {
    t.len() > 0 && (t[0] == '+' || t[0] == '-')
}

/// What follows the sign and any whitespace after it.
pub open spec fn vol_body(t: Seq<char>) -> Seq<char> {
    let u = t.drop_first();
    u.skip(space_run(u) as int)
}

/// The reserved volume-delta shorthand: a sign, then digits, with optional
/// whitespace around each. On an already trimmed line that is a sign,
/// optional whitespace, and nothing but digits to the end.
pub open spec fn is_vol_shorthand(t: Seq<char>) -> bool {
    vol_signed(t) && digits_only(vol_body(t))
}

/// A delta magnitude capped at 300, past which every target is the same.
pub open spec fn capped(n: nat) -> nat {
    if n > 300 {
        300
    } else {
        n
    }
}

/// Recognize the volume shorthand on a trimmed line and return its
/// direction and capped magnitude.
fn vol_shorthand(t: &str) -> (r: Option<(bool, u16)>)
    ensures
        r matches Some(p) ==> is_vol_shorthand(t@) && p.0 == (t@[0] == '-') && p.1 == capped(
            dec_val(vol_body(t@)),
        ),
        r is None ==> !is_vol_shorthand(t@),
{
    let n = t.unicode_len();
    if n == 0 {
        return None;
    }
    let c0 = t.get_char(0);
    if c0 != '+' && c0 != '-' {
        return None;
    }
    let down = c0 == '-';
    let mut g: usize = 1;
    while g < n && is_space_char(t.get_char(g))
        invariant
            1 <= g <= n,
            n == t@.len(),
            forall|j: int| 1 <= j < g ==> is_space(t@[j]),
        decreases n - g,
    {
        g += 1;
    }
    let ghost u = t@.drop_first();
    proof {
        assert(forall|j: int| 0 <= j < g - 1 ==> is_space(u[j]));
        assert(g < n ==> !is_space(u[g - 1]));
        crate::lemma_space_run_at(u, g - 1);
        assert(vol_body(t@) =~= t@.skip(g as int));
    }
    if g == n {
        return None;
    }
    let ghost body = vol_body(t@);
    let mut acc: u16 = 0;
    let mut i: usize = g;
    while i < n
        invariant
            g <= i <= n,
            n == t@.len(),
            body == vol_body(t@),
            body == t@.skip(g as int),
            crate::numerals::all_digits(body.take(i - g)),
            acc == capped(dec_val(body.take(i - g))),
            acc <= 300,
        decreases n - i,
    {
        let c = t.get_char(i) as u32;
        if c < 48 || c > 57 {
            proof {
                assert(body[i - g] == t@[i as int]);
            }
            return None;
        }
        let d = (c - 48) as u16;
        proof {
            assert(body[i - g] == t@[i as int]);
            crate::numerals::lemma_dec_val_step(body, i - g);
        }
        if acc >= 300 {
            proof {
                crate::numerals::lemma_dec_val_grows(body, i - g);
            }
        } else {
            let v = acc * 10 + d;
            acc = if v > 300 {
                300
            } else {
                v
            };
        }
        i += 1;
    }
    proof {
        assert(body.take(n - g) =~= body);
    }
    Some((down, acc))
}

/// Where one line of prompt input goes.
#[derive(Debug, Clone, PartialEq)]
pub enum Route {
    /// Blank input: the toggle-playback fast path.
    Toggle,
    /// The `+N`/`-N` shorthand, bypassing the registry.
    VolumeDelta { down: bool, amount: u16 },
    /// The command word matched nothing in the registry.
    Unknown { token: String },
    /// The command at `index` in the registry, with its argument.
    Command { index: usize, arg: Option<String> },
}

/// Route one line of prompt input, in the loop's fixed order: a line that
/// trims to nothing toggles playback; then the volume-delta shorthand is
/// checked, before any tokenization; then the line is split and its command
/// word resolved against the registry, first match winning.
pub fn route_input<T>(handlers: &Vec<Handler<T>>, line: &str) -> (r: Route)
    ensures
        trim_spec(line@).len() == 0 ==> r == Route::Toggle,
        trim_spec(line@).len() > 0 && is_vol_shorthand(trim_spec(line@)) ==> (r matches
            Route::VolumeDelta { down, amount } && down == (trim_spec(line@)[0] == '-') && amount
            == capped(dec_val(vol_body(trim_spec(line@))))),
        trim_spec(line@).len() > 0 && !is_vol_shorthand(trim_spec(line@)) && !some_match(
            handlers@,
            split_spec(trim_spec(line@)).0,
        ) ==> (r matches Route::Unknown { token } && token@ == split_spec(trim_spec(line@)).0),
        trim_spec(line@).len() > 0 && !is_vol_shorthand(trim_spec(line@)) && some_match(
            handlers@,
            split_spec(trim_spec(line@)).0,
        ) ==> (r matches Route::Command { index, arg } && {
            &&& index < handlers@.len()
            &&& handlers@[index as int].matches_token(split_spec(trim_spec(line@)).0)
            &&& forall|j: int|
                0 <= j < index ==> !handlers@[j].matches_token(split_spec(trim_spec(line@)).0)
            &&& arg is Some <==> split_spec(trim_spec(line@)).1 is Some
            &&& arg matches Some(x) ==> x@ == split_spec(trim_spec(line@)).1->0
        }),
{
    let t = trim(line);
    if t.as_str().unicode_len() == 0 {
        return Route::Toggle;
    }
    if let Some((down, amount)) = vol_shorthand(t.as_str()) {
        return Route::VolumeDelta { down, amount };
    }
    let (token, arg) = split_command(t.as_str());
    match crate::handler::find_handler(handlers, token.as_str()) {
        Some(index) => Route::Command { index, arg },
        None => Route::Unknown { token },
    }
}


} // verus!
