//! Command dispatch and nested-shell core of an interactive music-library
//! client: a line tokenizer, case-insensitive command registries, and the
//! decision logic of the top-level prompt loop and the search-result shells.
//!
//! The crate root holds the text utilities everything else builds on:
//! whitespace classification, case-folded comparison, the command tokenizer,
//! trimming, and list joining.

use vstd::prelude::*;

pub mod command;
pub mod control;
pub mod handler;
pub mod numerals;
pub mod playlist;
pub mod search;

verus! {

/// A character the tokenizer treats as whitespace: the Unicode `White_Space`
/// code points, matching what `char::is_whitespace` accepts.
pub open spec fn is_space(c: char) -> bool {
    c == ' ' || c == '\t' || c == '\n' || c == '\u{0b}' || c == '\u{0c}' || c == '\r'
        || c == '\u{85}' || c == '\u{a0}' || c == '\u{1680}'
        || ('\u{2000}' <= c && c <= '\u{200a}')
        || c == '\u{2028}' || c == '\u{2029}' || c == '\u{202f}' || c == '\u{205f}'
        || c == '\u{3000}'
}

/// Executable test for [`is_space`].
pub fn is_space_char(c: char) -> (r: bool)
    ensures
        r == is_space(c),
{
    let u = c as u32;
    u == 0x20 || u == 0x09 || u == 0x0a || u == 0x0b || u == 0x0c || u == 0x0d || u == 0x85
        || u == 0xa0 || u == 0x1680 || (0x2000 <= u && u <= 0x200a) || u == 0x2028 || u == 0x2029
        || u == 0x202f || u == 0x205f || u == 0x3000
}

/// The Unicode uppercase mapping of one character (possibly several
/// characters long, e.g. for the sharp s).
pub uninterp spec fn upper_of(c: char) -> Seq<char>;

/// Relies on `char::to_uppercase` from std: its result is a function of the
/// character alone, named here by [`upper_of`].
#[verifier::external_body]
fn char_upper(c: char) -> (r: Vec<char>)
    ensures
        r@ == upper_of(c),
{
    c.to_uppercase().collect()
}

/// Two characters are equal under case folding when they are identical or
/// share an uppercase mapping.
pub open spec fn chars_fold_eq(a: char, b: char) -> bool {
    a == b || upper_of(a) == upper_of(b)
}

/// Case-insensitive equality of two character sequences: same length,
/// characters pairwise equal under case folding.
pub open spec fn eq_fold(a: Seq<char>, b: Seq<char>) -> bool {
    a.len() == b.len() && forall|i: int| 0 <= i < a.len() ==> chars_fold_eq(a[i], b[i])
}

/// Case folding compares every string to itself.
pub proof fn lemma_eq_fold_reflexive(s: Seq<char>)
    ensures
        eq_fold(s, s),
{
}

fn chars_eq(a: &Vec<char>, b: &Vec<char>) -> (r: bool)
    ensures
        r == (a@ == b@),
{
    if a.len() != b.len() {
        return false;
    }
    let n = a.len();
    let mut i: usize = 0;
    while i < n
        invariant
            i <= n,
            n == a@.len() == b@.len(),
            forall|j: int| 0 <= j < i ==> a@[j] == b@[j],
        decreases n - i,
    {
        if a[i] != b[i] {
            return false;
        }
        i += 1;
    }
    proof {
        assert(a@ =~= b@);
    }
    true
}

/// Case-insensitive string comparison, folding each character through its
/// uppercase mapping.
pub fn equalfold(a: &str, b: &str) -> (r: bool)
    ensures
        r == eq_fold(a@, b@),
{
    let na = a.unicode_len();
    let nb = b.unicode_len();
    if na != nb {
        return false;
    }
    let mut i: usize = 0;
    while i < na
        invariant
            i <= na,
            na == a@.len() == b@.len(),
            forall|j: int| 0 <= j < i ==> chars_fold_eq(a@[j], b@[j]),
        decreases na - i,
    {
        let x = a.get_char(i);
        let y = b.get_char(i);
        if x != y {
            let ux = char_upper(x);
            let uy = char_upper(y);
            if !chars_eq(&ux, &uy) {
                return false;
            }
        }
        i += 1;
    }
    true
}

/// Exact (case-sensitive) string equality.
pub fn str_eq(a: &str, b: &str) -> (r: bool)
    ensures
        r == (a@ == b@),
{
    let na = a.unicode_len();
    let nb = b.unicode_len();
    if na != nb {
        return false;
    }
    let mut i: usize = 0;
    while i < na
        invariant
            i <= na,
            na == a@.len() == b@.len(),
            forall|j: int| 0 <= j < i ==> a@[j] == b@[j],
        decreases na - i,
    {
        if a.get_char(i) != b.get_char(i) {
            return false;
        }
        i += 1;
    }
    proof {
        assert(a@ =~= b@);
    }
    true
}

/// Length of the leading run of non-whitespace characters.
pub open spec fn token_len(s: Seq<char>) -> nat
    decreases s.len(),
{
    if s.len() == 0 {
        0
    } else if is_space(s[0]) {
        0
    } else {
        1 + token_len(s.drop_first())
    }
}

/// Length of the leading run of whitespace characters.
pub open spec fn space_run(s: Seq<char>) -> nat
    decreases s.len(),
{
    if s.len() == 0 {
        0
    } else if !is_space(s[0]) {
        0
    } else {
        1 + space_run(s.drop_first())
    }
}

/// `token_len` is exactly the index of the first whitespace character.
pub proof fn lemma_token_len_at(s: Seq<char>, t: int)
    requires
        0 <= t <= s.len(),
        forall|j: int| 0 <= j < t ==> !is_space(s[j]),
        t < s.len() ==> is_space(s[t]),
    ensures
        token_len(s) == t,
    decreases t,
{
    if t == 0 {
    } else {
        lemma_token_len_at(s.drop_first(), t - 1);
    }
}

/// `space_run` is exactly the index of the first non-whitespace character.
pub proof fn lemma_space_run_at(s: Seq<char>, t: int)
    requires
        0 <= t <= s.len(),
        forall|j: int| 0 <= j < t ==> is_space(s[j]),
        t < s.len() ==> !is_space(s[t]),
    ensures
        space_run(s) == t,
    decreases t,
{
    if t == 0 {
    } else {
        lemma_space_run_at(s.drop_first(), t - 1);
    }
}

/// What [`split_command`] returns: the command token is everything before the
/// first whitespace run; the argument is everything after that run, with the
/// run itself consumed; an argument that would be empty is `None`.
pub open spec fn split_spec(s: Seq<char>) -> (Seq<char>, Option<Seq<char>>) {
    let t = token_len(s) as int;
    let rest = s.skip(t);
    let g = space_run(rest) as int;
    let arg = rest.skip(g);
    (s.take(t), if arg.len() == 0 { None } else { Some(arg) })
}

/// Split one input line into a command word and an optional trailing
/// argument. Only the first whitespace run is consumed; whitespace inside the
/// argument is preserved verbatim. Pure and total: never fails.
pub fn split_command(s: &str) -> (r: (String, Option<String>))
    ensures
        r.0@ == split_spec(s@).0,
        r.1 is Some <==> split_spec(s@).1 is Some,
        r.1 matches Some(a) ==> split_spec(s@).1 matches Some(b) && a@ == b,
{
    let n = s.unicode_len();
    let mut t: usize = 0;
    while t < n && !is_space_char(s.get_char(t))
        invariant
            t <= n,
            n == s@.len(),
            forall|j: int| 0 <= j < t ==> !is_space(s@[j]),
        decreases n - t,
    {
        t += 1;
    }
    proof {
        lemma_token_len_at(s@, t as int);
    }
    let cmd = s.substring_char(0, t).to_owned();
    let mut g = t;
    while g < n && is_space_char(s.get_char(g))
        invariant
            t <= g <= n,
            n == s@.len(),
            forall|j: int| t <= j < g ==> is_space(s@[j]),
        decreases n - g,
    {
        g += 1;
    }
    proof {
        let rest = s@.skip(t as int);
        assert(forall|j: int| 0 <= j < g - t ==> is_space(rest[j]));
        assert(g < n ==> !is_space(rest[g - t]));
        lemma_space_run_at(rest, g - t);
        assert(rest.skip(g - t) =~= s@.skip(g as int));
    }
    if g == n {
        (cmd, None)
    } else {
        let arg = s.substring_char(g, n).to_owned();
        (cmd, Some(arg))
    }
}

/// Length of the trailing run of whitespace characters.
pub open spec fn space_run_end(s: Seq<char>) -> nat
    decreases s.len(),
{
    if s.len() == 0 {
        0
    } else if !is_space(s.last()) {
        0
    } else {
        1 + space_run_end(s.drop_last())
    }
}

/// `space_run_end` is exactly the distance from the last non-whitespace
/// character to the end.
pub proof fn lemma_space_run_end_at(s: Seq<char>, t: int)
    requires
        0 <= t <= s.len(),
        forall|j: int| t <= j < s.len() ==> is_space(s[j]),
        t > 0 ==> !is_space(s[t - 1]),
    ensures
        space_run_end(s) == s.len() - t,
    decreases s.len() - t,
{
    if t == s.len() {
    } else {
        assert(s.drop_last() =~= s.take(s.len() - 1));
        lemma_space_run_end_at(s.drop_last(), t);
    }
}

/// The input with leading and trailing whitespace removed.
pub open spec fn trim_spec(s: Seq<char>) -> Seq<char> {
    let i = space_run(s) as int;
    if i == s.len() {
        Seq::empty()
    } else {
        s.subrange(i, s.len() - space_run_end(s))
    }
}

/// Remove leading and trailing whitespace.
pub fn trim(s: &str) -> (r: String)
    ensures
        r@ == trim_spec(s@),
{
    let n = s.unicode_len();
    let mut i: usize = 0;
    while i < n && is_space_char(s.get_char(i))
        invariant
            i <= n,
            n == s@.len(),
            forall|j: int| 0 <= j < i ==> is_space(s@[j]),
        decreases n - i,
    {
        i += 1;
    }
    proof {
        lemma_space_run_at(s@, i as int);
    }
    if i == n {
        return String::new();
    }
    let mut j: usize = n;
    while j > i && is_space_char(s.get_char(j - 1))
        invariant
            i <= j <= n,
            n == s@.len(),
            forall|k: int| j <= k < n ==> is_space(s@[k]),
        decreases j,
    {
        j -= 1;
    }
    proof {
        assert(!is_space(s@[i as int]));
        assert(j > 0 ==> !is_space(s@[j - 1]));
        lemma_space_run_end_at(s@, j as int);
    }
    s.substring_char(i, j).to_owned()
}

/// A sequence of names joined with `", "`.
pub open spec fn comma_join(parts: Seq<Seq<char>>) -> Seq<char>
    decreases parts.len(),
{
    if parts.len() == 0 {
        Seq::empty()
    } else if parts.len() == 1 {
        parts[0]
    } else {
        comma_join(parts.drop_last()) + ", "@ + parts.last()
    }
}

/// How a list of artist names reads in display text: nothing, the single
/// name, or all but the last joined by commas, then `" and "`, then the last.
pub open spec fn join_names(parts: Seq<Seq<char>>) -> Seq<char> {
    if parts.len() == 0 {
        Seq::empty()
    } else if parts.len() == 1 {
        parts[0]
    } else {
        comma_join(parts.drop_last()) + " and "@ + parts.last()
    }
}

/// Join artist names for display: `a`, `a and b`, or `a, b and c`.
pub fn join_artists(artists: &Vec<String>) -> (r: String)
    ensures
        r@ == join_names(artists.deep_view()),
{
    let ghost parts = artists.deep_view();
    let n = artists.len();
    if n == 0 {
        return String::new();
    }
    if n == 1 {
        return artists[0].clone();
    }
    let mut out = artists[0].clone();
    let mut i: usize = 1;
    while i < n - 1
        invariant
            1 <= i <= n - 1,
            n == artists@.len(),
            parts == artists.deep_view(),
            out@ == comma_join(parts.take(i as int)),
        decreases n - i,
    {
        out.append(", ");
        out.append(artists[i].as_str());
        proof {
            assert(parts.take(i + 1).drop_last() =~= parts.take(i as int));
            assert(parts.take(i + 1).last() == parts[i as int]);
        }
        i += 1;
    }
    out.append(" and ");
    out.append(artists[n - 1].as_str());
    proof {
        assert(parts.take(n - 1 as int) =~= parts.drop_last());
        assert(parts.last() == parts[n - 1 as int]);
    }
    out
}


/// The pattern occurs in `s` at position `i`.
pub open spec fn match_at(s: Seq<char>, pat: Seq<char>, i: int) -> bool {
    0 <= i && i + pat.len() <= s.len() && s.subrange(i, i + pat.len()) == pat
}

/// The pattern occurs somewhere in `s`.
pub open spec fn has_sub(s: Seq<char>, pat: Seq<char>) -> bool {
    exists|j: int| match_at(s, pat, j)
}

/// `i` is the first position at which the pattern occurs in `s`.
pub open spec fn first_occurrence(s: Seq<char>, pat: Seq<char>, i: int) -> bool {
    match_at(s, pat, i) && forall|j: int| 0 <= j < i ==> !match_at(s, pat, j)
}

/// Find the first occurrence of `pat` in `s`.
pub fn find_sub(s: &str, pat: &str) -> (r: Option<usize>)
    ensures
        r matches Some(i) ==> first_occurrence(s@, pat@, i as int),
        r is None ==> !has_sub(s@, pat@),
{
    let n = s.unicode_len();
    let m = pat.unicode_len();
    if m > n {
        proof {
            assert forall|j: int| !match_at(s@, pat@, j) by {}
        }
        return None;
    }
    if m == 0 {
        proof {
            assert(s@.subrange(0, 0) =~= pat@);
        }
        return Some(0);
    }
    let mut i: usize = 0;
    while i <= n - m
        invariant
            0 <= i <= n - m + 1,
            1 <= m <= n,
            n == s@.len(),
            m == pat@.len(),
            forall|j: int| 0 <= j < i ==> !match_at(s@, pat@, j),
        decreases n - m - i + 1,
    {
        let window = s.substring_char(i, i + m);
        if str_eq(window, pat) {
            return Some(i);
        }
        i += 1;
    }
    proof {
        assert forall|j: int| !match_at(s@, pat@, j) by {
            if 0 <= j < i {
            }
        }
    }
    None
}

} // verus!
