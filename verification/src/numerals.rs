//! Decimal numerals as the shells read and print them: recognising digit
//! strings, their value, parsing with explicit overflow behaviour, and
//! formatting indices back to text.

use vstd::prelude::*;

verus! {

/// An ASCII decimal digit.
pub open spec fn is_digit(c: char) -> bool {
    '0' <= c && c <= '9'
}

/// The value of one digit character.
pub open spec fn digit_val(c: char) -> nat {
    ((c as int) - 48) as nat
}

/// Every character of the sequence is a decimal digit.
pub open spec fn all_digits(s: Seq<char>) -> bool {
    forall|i: int| 0 <= i < s.len() ==> is_digit(s[i])
}

/// A non-empty string of decimal digits.
pub open spec fn digits_only(s: Seq<char>) -> bool {
    s.len() > 0 && all_digits(s)
}

/// The numeric value of a digit string, most significant digit first.
pub open spec fn dec_val(s: Seq<char>) -> nat
    decreases s.len(),
{
    if s.len() == 0 {
        0
    } else {
        dec_val(s.drop_last()) * 10 + digit_val(s.last())
    }
}

/// Reading one more digit multiplies the value so far by ten and adds it.
pub proof fn lemma_dec_val_step(s: Seq<char>, i: int)
    requires
        0 <= i < s.len(),
    ensures
        dec_val(s.take(i + 1)) == dec_val(s.take(i)) * 10 + digit_val(s[i]),
{
    assert(s.take(i + 1).drop_last() =~= s.take(i));
    assert(s.take(i + 1).last() == s[i]);
}

/// A longer digit string never has a smaller value.
pub proof fn lemma_dec_val_grows(s: Seq<char>, i: int)
    requires
        0 <= i < s.len(),
    ensures
        dec_val(s.take(i + 1)) >= dec_val(s.take(i)),
{
    lemma_dec_val_step(s, i);
}

/// Is the string a non-empty run of decimal digits? This is the shape the
/// result shells accept as a direct index shortcut.
pub fn is_digits(s: &str) -> (r: bool)
    ensures
        r == digits_only(s@),
{
    let n = s.unicode_len();
    if n == 0 {
        return false;
    }
    let mut i: usize = 0;
    while i < n
        invariant
            i <= n,
            n == s@.len(),
            forall|j: int| 0 <= j < i ==> is_digit(s@[j]),
        decreases n - i,
    {
        let u = s.get_char(i) as u32;
        if u < 48 || u > 57 {
            return false;
        }
        i += 1;
    }
    true
}

/// The digit part of a numeral: an optional leading `+` sign is skipped.
pub open spec fn numeral_digits(s: Seq<char>) -> Seq<char> {
    if s.len() > 0 && s[0] == '+' {
        s.drop_first()
    } else {
        s
    }
}

/// A numeral as the standard unsigned parsers accept it: an optional `+`
/// sign followed by at least one digit. A `-` sign is not a numeral here.
pub open spec fn is_numeral(s: Seq<char>) -> bool {
    digits_only(numeral_digits(s))
}

/// Parse an unsigned numeral. Returns its value when the string is a
/// numeral whose value fits the machine word, and `None` otherwise — exactly
/// the cases in which the standard parser would succeed or fail.
pub fn numeral_value(s: &str) -> (r: Option<usize>)
    ensures
        r matches Some(v) ==> is_numeral(s@) && v == dec_val(numeral_digits(s@)),
        r is None ==> !is_numeral(s@) || dec_val(numeral_digits(s@)) > usize::MAX,
{
    let n = s.unicode_len();
    if n == 0 {
        return None;
    }
    let start: usize = if s.get_char(0) == '+' {
        1
    } else {
        0
    };
    let ghost d = numeral_digits(s@);
    proof {
        assert(d =~= s@.skip(start as int));
    }
    if start == n {
        return None;
    }
    let mut acc: usize = 0;
    let mut over: bool = false;
    let mut i: usize = start;
    while i < n
        invariant
            start <= i <= n,
            n == s@.len(),
            d == numeral_digits(s@),
            d == s@.skip(start as int),
            all_digits(d.take(i - start)),
            !over ==> acc == dec_val(d.take(i - start)),
            over ==> dec_val(d.take(i - start)) > usize::MAX,
        decreases n - i,
    {
        let u = s.get_char(i) as u32;
        if u < 48 || u > 57 {
            proof {
                assert(d[i - start] == s@[i as int]);
            }
            return None;
        }
        let dv = (u - 48) as usize;
        proof {
            assert(d[i - start] == s@[i as int]);
            lemma_dec_val_step(d, i - start);
        }
        if !over {
            match acc.checked_mul(10) {
                Some(m) => match m.checked_add(dv) {
                    Some(v) => {
                        acc = v;
                    },
                    None => {
                        over = true;
                    },
                },
                None => {
                    over = true;
                },
            }
        } else {
            proof {
                lemma_dec_val_grows(d, i - start);
            }
        }
        i += 1;
    }
    proof {
        assert(d.take(n - start) =~= d);
    }
    if over {
        None
    } else {
        Some(acc)
    }
}

/// Parse a digit string as an index into a list of `bound` items. Succeeds
/// exactly when the whole string is digits and its value is in range; an
/// out-of-range or oversized value and a non-digit string alike give `None`.
pub fn parse_index(s: &str, bound: usize) -> (r: Option<usize>)
    ensures
        r matches Some(v) ==> digits_only(s@) && v == dec_val(s@) && v < bound,
        r is None ==> !digits_only(s@) || dec_val(s@) >= bound,
{
    if !is_digits(s) {
        return None;
    }
    proof {
        assert(numeral_digits(s@) == s@);
    }
    match numeral_value(s) {
        Some(v) if v < bound => Some(v),
        _ => None,
    }
}

/// Parse a volume argument as the byte parser would: an optional `+` sign,
/// digits, value at most 255. Values that do not fit a byte are rejected,
/// not clamped; clamping to 100 is the caller's documented step.
pub fn parse_volume(s: &str) -> (r: Option<u8>)
    ensures
        r matches Some(v) ==> is_numeral(s@) && v == dec_val(numeral_digits(s@)) && v <= 255,
        r is None ==> !is_numeral(s@) || dec_val(numeral_digits(s@)) > 255,
{
    match numeral_value(s) {
        Some(v) if v <= 255 => Some(v as u8),
        _ => None,
    }
}

/// The digit character for a value below ten.
pub open spec fn digit_char(d: nat) -> char {
    ((d + 48) as u32) as char
}

/// The decimal text of a number, most significant digit first.
pub open spec fn dec_str(n: nat) -> Seq<char>
    decreases n,
{
    if n < 10 {
        seq![digit_char(n)]
    } else {
        dec_str(n / 10) + seq![digit_char(n % 10)]
    }
}

fn digit_str(d: usize) -> (r: &'static str)
    requires
        d < 10,
    ensures
        r@ =~= seq![digit_char(d as nat)],
{
    let digits = "0123456789";
    proof {
        reveal_strlit("0123456789");
    }
    digits.substring_char(d, d + 1)
}

/// Format a number in decimal.
pub fn fmt_usize(n: usize) -> (r: String)
    ensures
        r@ == dec_str(n as nat),
    decreases n,
{
    let q = n / 10;
    let d = digit_str(n % 10);
    if q == 0 {
        d.to_owned()
    } else {
        let mut out = fmt_usize(q);
        out.append(d);
        out
    }
}

/// A run of spaces.
pub open spec fn spaces(n: nat) -> Seq<char> {
    Seq::new(n, |i: int| ' ')
}

/// The text padded on the left with spaces to at least `width` characters,
/// as the listing columns print an index.
pub open spec fn pad_left(s: Seq<char>, width: nat) -> Seq<char> {
    if s.len() >= width {
        s
    } else {
        spaces((width - s.len()) as nat) + s
    }
}

/// The text padded on the right with spaces to at least `width` characters.
pub open spec fn pad_right(s: Seq<char>, width: nat) -> Seq<char> {
    if s.len() >= width {
        s
    } else {
        s + spaces((width - s.len()) as nat)
    }
}

/// Decimal text is never empty.
pub proof fn lemma_dec_str_nonempty(n: nat)
    ensures
        dec_str(n).len() >= 1,
    decreases n,
{
    if n >= 10 {
        lemma_dec_str_nonempty(n / 10);
    }
}

/// Format an index padded to two columns, as the result listings show it.
pub fn fmt_index2(n: usize) -> (r: String)
    ensures
        r@ == pad_left(dec_str(n as nat), 2),
{
    let s = fmt_usize(n);
    if n < 10 {
        proof {
            assert(dec_str(n as nat).len() == 1);
        }
        let mut out = " ".to_owned();
        proof {
            reveal_strlit(" ");
            assert(spaces(1) =~= " "@);
        }
        out.append(s.as_str());
        out
    } else {
        proof {
            lemma_dec_str_nonempty((n / 10) as nat);
        }
        s
    }
}

} // verus!
