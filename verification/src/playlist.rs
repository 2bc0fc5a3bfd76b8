//! The library's view of a playlist: the fields the dispatch logic reads.
//! A playlist arrives as a summary (no track listing) and is upgraded in
//! place to a detailed form once its tracks have been fetched; membership
//! checks and the duplicate-safe save decision work on the detailed form.

use crate::{eq_fold, equalfold, str_eq};
use vstd::prelude::*;

verus! {

/// What identifies a track inside a playlist: its id when the service gives
/// one, its URI as the fallback.
#[derive(Clone)]
pub struct TrackRef {
    pub id: Option<String>,
    pub uri: String,
}

impl TrackRef {
    /// The key a membership check compares: the id, falling back to the URI
    /// when the id is absent.
    pub open spec fn key(self) -> Seq<char> {
        match self.id {
            Some(id) => id@,
            None => self.uri@,
        }
    }

    /// Return the comparison key.
    pub fn key_str(&self) -> (r: &String)
        ensures
            r@ == self.key(),
    {
        match &self.id {
            Some(id) => id,
            None => &self.uri,
        }
    }
}

/// The descriptive fields of a playlist.
#[derive(Clone)]
pub struct PlaylistMeta {
    pub id: String,
    pub uri: String,
    pub name: String,
    pub owner: Option<String>,
}

/// A playlist as the session holds it: a bare summary, or detailed with its
/// track listing materialized.
#[derive(Clone)]
pub enum Playlist {
    Simple(PlaylistMeta),
    Full(PlaylistMeta, Vec<TrackRef>),
}

impl Playlist {
    /// The descriptive fields, whichever form the playlist is in.
    pub open spec fn meta(self) -> PlaylistMeta {
        match self {
            Playlist::Simple(m) => m,
            Playlist::Full(m, _) => m,
        }
    }

    /// The materialized track listing of a detailed playlist.
    pub open spec fn track_list(self) -> Seq<TrackRef>
        recommends
            self is Full,
    {
        match self {
            Playlist::Simple(_) => Seq::empty(),
            Playlist::Full(_, ts) => ts@,
        }
    }

    /// Does the playlist's name match `s`, case-insensitively?
    pub fn name_eq(&self, s: &str) -> (r: bool)
        ensures
            r == eq_fold(self.meta().name@, s@),
    {
        match self {
            Playlist::Simple(m) => equalfold(m.name.as_str(), s),
            Playlist::Full(m, _) => equalfold(m.name.as_str(), s),
        }
    }

    /// The playlist's name.
    pub fn name(&self) -> (r: &String)
        ensures
            r@ == self.meta().name@,
    {
        match self {
            Playlist::Simple(m) => &m.name,
            Playlist::Full(m, _) => &m.name,
        }
    }

    /// The playlist's URI.
    pub fn uri(&self) -> (r: &String)
        ensures
            r@ == self.meta().uri@,
    {
        match self {
            Playlist::Simple(m) => &m.uri,
            Playlist::Full(m, _) => &m.uri,
        }
    }

    /// The playlist's id.
    pub fn id(&self) -> (r: &String)
        ensures
            r@ == self.meta().id@,
    {
        match self {
            Playlist::Simple(m) => &m.id,
            Playlist::Full(m, _) => &m.id,
        }
    }

    /// The display name of the playlist's owner, when the service gave one.
    pub fn owner(&self) -> (r: &Option<String>)
        ensures
            r == self.meta().owner,
    {
        match self {
            Playlist::Simple(m) => &m.owner,
            Playlist::Full(m, _) => &m.owner,
        }
    }

    /// Replace the playlist's name, keeping everything else.
    pub fn set_name(&mut self, name: &str)
        ensures
            final(self).meta().name@ == name@,
            final(self).meta().id == old(self).meta().id,
            final(self).meta().uri == old(self).meta().uri,
            final(self).meta().owner == old(self).meta().owner,
            (*final(self)) is Full <==> (*old(self)) is Full,
            final(self).track_list() == old(self).track_list(),
    {
        match self {
            Playlist::Simple(m) => {
                m.name = name.to_owned();
            },
            Playlist::Full(m, _) => {
                m.name = name.to_owned();
            },
        }
    }

    /// Is the playlist still a bare summary?
    pub fn is_simple(&self) -> (r: bool)
        ensures
            r == (*self is Simple),
    {
        match self {
            Playlist::Simple(_) => true,
            Playlist::Full(_, _) => false,
        }
    }

    /// Upgrade a summary in place to the detailed form, installing the track
    /// listing the caller fetched for it. A playlist already detailed keeps
    /// the listing it has.
    pub fn make_full(&mut self, tracks: Vec<TrackRef>)
        ensures
            final(self).meta() == old(self).meta(),
            (*final(self)) is Full,
            (*old(self)) is Simple ==> final(self).track_list() == tracks@,
            (*old(self)) is Full ==> final(self).track_list() == old(self).track_list(),
    {
        match self {
            Playlist::Simple(m) => {
                let meta = PlaylistMeta {
                    id: m.id.clone(),
                    uri: m.uri.clone(),
                    name: m.name.clone(),
                    owner: match &m.owner {
                        Some(o) => Some(o.clone()),
                        None => None,
                    },
                };
                proof {
                    assert(meta == old(self).meta());
                }
                *self = Playlist::Full(meta, tracks);
            },
            Playlist::Full(_, _) => {},
        }
    }

    /// Some entry of the listing has the same key as `t`.
    pub open spec fn has_track(self, t: TrackRef) -> bool {
        exists|j: int| 0 <= j < self.track_list().len() && self.track_list()[j].key() == t.key()
    }

    /// Membership check of a detailed playlist: is a track with this key
    /// already in the listing?
    pub fn contains_track(&self, t: &TrackRef) -> (r: bool)
        requires
            *self is Full,
        ensures
            r == self.has_track(*t),
    {
        let ts: &Vec<TrackRef> = match self {
            Playlist::Full(_, ts) => ts,
            Playlist::Simple(_) => {
                return false;
            },
        };
        let key = t.key_str();
        let n = ts.len();
        let mut i: usize = 0;
        while i < n
            invariant
                i <= n,
                n == ts@.len(),
                ts@ == self.track_list(),
                key@ == t.key(),
                forall|j: int| 0 <= j < i ==> ts@[j].key() != t.key(),
            decreases n - i,
        {
            let entry_key = ts[i].key_str();
            if str_eq(entry_key.as_str(), key.as_str()) {
                return true;
            }
            i += 1;
        }
        false
    }

    /// Add a track at the front of a detailed playlist's listing, as the
    /// service inserts saved tracks at position zero.
    pub fn add_track(&mut self, t: TrackRef)
        requires
            *old(self) is Full,
        ensures
            final(self).meta() == old(self).meta(),
            (*final(self)) is Full,
            final(self).track_list() == seq![t].add(old(self).track_list()),
    {
        match self {
            Playlist::Full(_, ts) => {
                ts.insert(0, t);
                proof {
                    assert(ts@ =~= seq![t].add(old(self).track_list()));
                }
            },
            Playlist::Simple(_) => {},
        }
    }

    /// Drop every entry whose key equals `t`'s from a detailed playlist's
    /// listing, as removal deletes all occurrences.
    pub fn remove_track(&mut self, t: &TrackRef)
        requires
            *old(self) is Full,
        ensures
            final(self).meta() == old(self).meta(),
            (*final(self)) is Full,
            final(self).track_list() == old(self).track_list().filter(
                |x: TrackRef| x.key() != t.key(),
            ),
    {
        let ghost keep = |x: TrackRef| x.key() != t.key();
        let ts: &mut Vec<TrackRef> = match self {
            Playlist::Full(_, ts) => ts,
            Playlist::Simple(_) => {
                proof {
                    assert(false);
                }
                return;
            },
        };
        let key = t.key_str();
        let n = ts.len();
        let mut out: Vec<TrackRef> = Vec::new();
        let mut i: usize = 0;
        proof {
            assert(ts@.take(0).filter(keep) =~= out@);
        }
        while i < n
            invariant
                i <= n,
                n == ts@.len(),
                key@ == t.key(),
                keep == (|x: TrackRef| x.key() != t.key()),
                out@ == ts@.take(i as int).filter(keep),
            decreases n - i,
        {
            proof {
                reveal(Seq::filter);
                assert(ts@.take(i + 1).drop_last() =~= ts@.take(i as int));
                assert(ts@.take(i + 1).last() == ts@[i as int]);
            }
            let entry_key = ts[i].key_str();
            if !str_eq(entry_key.as_str(), key.as_str()) {
                let copied = TrackRef {
                    id: match &ts[i].id {
                        Some(s) => Some(s.clone()),
                        None => None,
                    },
                    uri: ts[i].uri.clone(),
                };
                proof {
                    assert(copied.key() == ts@[i as int].key());
                }
                out.push(copied);
            }
            i += 1;
        }
        proof {
            assert(ts@.take(n as int) =~= ts@);
        }
        *ts = out;
    }
}

/// Saving the currently playing track twice is idempotent: once a track has
/// been added to a detailed playlist, a repeated save finds it present and
/// issues no further addition.
pub proof fn lemma_save_idempotent(before: Playlist, after: Playlist, t: TrackRef)
    requires
        before is Full,
        after is Full,
        after.track_list() == seq![t].add(before.track_list()),
    ensures
        after.has_track(t),
{
    assert(after.track_list()[0].key() == t.key());
}

} // verus!
