//! Search-query construction: a free-form search term may name its artist as
//! `title::artist` or `title by artist`, and is rewritten into the service's
//! fielded query syntax.

use crate::{find_sub, first_occurrence, has_sub, trim, trim_spec};
use vstd::prelude::*;

verus! {

/// The fielded query built when the term splits at position `i` over a
/// separator of length `sep`: the part before, trimmed, under `prefix`, and
/// the part after, trimmed, as the artist field.
pub open spec fn fielded_query(
    prefix: Seq<char>,
    s: Seq<char>,
    i: int,
    sep: int,
) -> Seq<char> {
    prefix + trim_spec(s.take(i)) + " artist:"@ + trim_spec(s.skip(i + sep))
}

/// Rewrite a search term under the given field prefix: split at the first
/// `::`, else at the first ` by `, else pass the term through unchanged.
fn fielded(s: &str, prefix: &str) -> (r: String)
    ensures
        has_sub(s@, "::"@) ==> exists|i: int|
            first_occurrence(s@, "::"@, i) && r@ == fielded_query(prefix@, s@, i, 2),
        !has_sub(s@, "::"@) && has_sub(s@, " by "@) ==> exists|i: int|
            first_occurrence(s@, " by "@, i) && r@ == fielded_query(prefix@, s@, i, 4),
        !has_sub(s@, "::"@) && !has_sub(s@, " by "@) ==> r@ == s@,
{
    let n = s.unicode_len();
    proof {
        reveal_strlit("::");
        reveal_strlit(" by ");
    }
    if let Some(i) = find_sub(s, "::") {
        let title = trim(s.substring_char(0, i));
        let artist = trim(s.substring_char(i + 2, n));
        let mut out = prefix.to_owned();
        out.append(title.as_str());
        out.append(" artist:");
        out.append(artist.as_str());
        proof {
            assert(s@.take(i as int) == s@.subrange(0, i as int));
            assert(s@.skip(i + 2) == s@.subrange(i + 2, n as int));
        }
        out
    } else if let Some(i) = find_sub(s, " by ") {
        let title = trim(s.substring_char(0, i));
        let artist = trim(s.substring_char(i + 4, n));
        let mut out = prefix.to_owned();
        out.append(title.as_str());
        out.append(" artist:");
        out.append(artist.as_str());
        proof {
            assert(s@.take(i as int) == s@.subrange(0, i as int));
            assert(s@.skip(i + 4) == s@.subrange(i + 4, n as int));
        }
        out
    } else {
        s.to_owned()
    }
}

/// Build the track search query: `title::artist` and `title by artist`
/// become `track:title artist:artist`; anything else is searched as given.
pub fn track_query(s: &str) -> (r: String)
    ensures
        has_sub(s@, "::"@) ==> exists|i: int|
            first_occurrence(s@, "::"@, i) && r@ == fielded_query("track:"@, s@, i, 2),
        !has_sub(s@, "::"@) && has_sub(s@, " by "@) ==> exists|i: int|
            first_occurrence(s@, " by "@, i) && r@ == fielded_query("track:"@, s@, i, 4),
        !has_sub(s@, "::"@) && !has_sub(s@, " by "@) ==> r@ == s@,
{
    fielded(s, "track:")
}

/// Build the album search query: `title::artist` and `title by artist`
/// become `album:title artist:artist`; anything else is searched as given.
pub fn album_query(s: &str) -> (r: String)
    ensures
        has_sub(s@, "::"@) ==> exists|i: int|
            first_occurrence(s@, "::"@, i) && r@ == fielded_query("album:"@, s@, i, 2),
        !has_sub(s@, "::"@) && has_sub(s@, " by "@) ==> exists|i: int|
            first_occurrence(s@, " by "@, i) && r@ == fielded_query("album:"@, s@, i, 4),
        !has_sub(s@, "::"@) && !has_sub(s@, " by "@) ==> r@ == s@,
{
    fielded(s, "album:")
}

} // verus!
