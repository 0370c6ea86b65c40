//! Verified text utilities: locating and replacing a placeholder inside a
//! string, rendering integers in decimal, and the case-folding and UTF-8
//! decoding facilities that the wire types and error descriptions rely on.
use vstd::prelude::*;
use vstd::string::*;
use vstd::utf8::valid_utf8;
use vstd::utf8::decode_utf8;

verus! {

// ======================= Finding and replacing =======================

/// True when `pat` occurs in `text` starting at position `i`.
pub open spec fn match_at(text: Seq<char>, pat: Seq<char>, i: int) -> bool {
    &&& 0 <= i
    &&& i + pat.len() <= text.len()
    &&& text.subrange(i, i + pat.len()) == pat
}

/// The first position at or after `from` where `pat` occurs in `text`.
pub open spec fn spec_find_from(text: Seq<char>, pat: Seq<char>, from: int) -> Option<int>
    decreases text.len() - from,
{
    if from < 0 || from + pat.len() > text.len() {
        None
    } else if pat.len() == 0 {
        Some(from)
    } else if match_at(text, pat, from) {
        Some(from)
    } else {
        spec_find_from(text, pat, from + 1)
    }
}

/// A found position lies between `from` and the end of `text`, with the whole
/// pattern in range.
pub proof fn lemma_find_from_bounds(text: Seq<char>, pat: Seq<char>, from: int)
    ensures
        spec_find_from(text, pat, from) matches Some(i) ==> from <= i && i + pat.len()
            <= text.len(),
    decreases text.len() - from,
{
    if !(from < 0 || from + pat.len() > text.len()) && pat.len() > 0 && !match_at(
        text,
        pat,
        from,
    ) {
        lemma_find_from_bounds(text, pat, from + 1);
    }
}

/// `text` with the first occurrence of `pat` replaced by `sub`; `text`
/// unchanged when `pat` does not occur in it.
pub open spec fn spec_replace_first(text: Seq<char>, pat: Seq<char>, sub: Seq<char>) -> Seq<char> {
    match spec_find_from(text, pat, 0) {
        None => text,
        Some(i) => text.subrange(0, i) + sub + text.subrange(
            i + pat.len(),
            text.len() as int,
        ),
    }
}

/// True exactly when `pat` occurs in `text` at position `i`.
fn matches_at(text: &str, pat: &str, i: usize) -> (r: bool)
    requires
        i + pat@.len() <= text@.len(),
        text@.len() <= usize::MAX,
    ensures
        r == match_at(text@, pat@, i as int),
{
    let plen = pat.unicode_len();
    let mut j: usize = 0;
    while j < plen
        invariant
            plen == pat@.len(),
            i + plen <= text@.len(),
            text@.len() <= usize::MAX,
            j <= plen,
            forall|k: int| 0 <= k < j ==> text@[i + k] == pat@[k],
        decreases plen - j,
    {
        if text.get_char(i + j) != pat.get_char(j) {
            proof {
                if match_at(text@, pat@, i as int) {
                    assert(text@.subrange(i as int, i + plen)[j as int] == pat@[j as int]);
                }
            }
            return false;
        }
        j += 1;
    }
    proof {
        assert(text@.subrange(i as int, i + plen) =~= pat@);
    }
    true
}

/// The first position where `pat` occurs in `text`, or `None` when it does
/// not occur.
pub fn find_first(text: &str, pat: &str) -> (r: Option<usize>)
    ensures
        match r {
            Some(i) => spec_find_from(text@, pat@, 0) == Some(i as int),
            None => spec_find_from(text@, pat@, 0) is None,
        },
{
    let tlen = text.unicode_len();
    let plen = pat.unicode_len();
    if plen > tlen {
        return None;
    }
    if plen == 0 {
        proof {
            assert(text@.subrange(0, 0) =~= pat@);
        }
        return Some(0);
    }
    let mut i: usize = 0;
    while i <= tlen - plen
        invariant
            tlen == text@.len(),
            plen == pat@.len(),
            1 <= plen <= tlen,
            i <= tlen - plen + 1,
            spec_find_from(text@, pat@, 0) == spec_find_from(text@, pat@, i as int),
        decreases tlen - i,
    {
        if matches_at(text, pat, i) {
            return Some(i);
        }
        i += 1;
    }
    None
}

/// `text` with the first occurrence of `pat` replaced by `sub`; a copy of
/// `text` when `pat` does not occur in it.
pub fn replace_first(text: &str, pat: &str, sub: &str) -> (r: String)
    ensures
        r@ == spec_replace_first(text@, pat@, sub@),
{
    match find_first(text, pat) {
        None => text.to_owned(),
        Some(i) => {
            proof {
                lemma_find_from_bounds(text@, pat@, 0);
            }
            let tlen = text.unicode_len();
            let plen = pat.unicode_len();
            let mut r = String::from_str(text.substring_char(0, i));
            r.append(sub);
            r.append(text.substring_char(i + plen, tlen));
            proof {
                assert(text@.subrange(0, i as int) + sub@ + text@.subrange(
                    i + plen,
                    tlen as int,
                ) =~= spec_replace_first(text@, pat@, sub@));
            }
            r
        },
    }
}

// ======================= Decimal rendering =======================

/// The decimal digit character for a value below ten.
pub open spec fn spec_digit(d: int) -> char {
    if d == 0 {
        '0'
    } else if d == 1 {
        '1'
    } else if d == 2 {
        '2'
    } else if d == 3 {
        '3'
    } else if d == 4 {
        '4'
    } else if d == 5 {
        '5'
    } else if d == 6 {
        '6'
    } else if d == 7 {
        '7'
    } else if d == 8 {
        '8'
    } else {
        '9'
    }
}

/// The decimal rendering of a non-negative integer, most significant digit
/// first, without leading zeros (zero itself is a single digit).
pub open spec fn spec_dec(n: int) -> Seq<char>
    decreases n,
{
    if n < 10 {
        seq![spec_digit(n)]
    } else {
        spec_dec(n / 10).push(spec_digit(n % 10))
    }
}

/// The one-character string of a decimal digit.
fn digit_str(d: u64) -> (r: &'static str)
    requires
        d < 10,
    ensures
        r@ =~= seq![spec_digit(d as int)],
{
    proof {
        reveal_strlit("0");
        reveal_strlit("1");
        reveal_strlit("2");
        reveal_strlit("3");
        reveal_strlit("4");
        reveal_strlit("5");
        reveal_strlit("6");
        reveal_strlit("7");
        reveal_strlit("8");
        reveal_strlit("9");
    }
    match d {
        0 => "0",
        1 => "1",
        2 => "2",
        3 => "3",
        4 => "4",
        5 => "5",
        6 => "6",
        7 => "7",
        8 => "8",
        _ => "9",
    }
}

/// The decimal rendering of `n`, without leading zeros.
pub fn u64_to_dec(n: u64) -> (r: String)
    ensures
        r@ == spec_dec(n as int),
    decreases n,
{
    if n < 10 {
        String::from_str(digit_str(n))
    } else {
        let mut s = u64_to_dec(n / 10);
        s.append(digit_str(n % 10));
        proof {
            assert(s@ =~= spec_dec(n as int));
        }
        s
    }
}

/// The three-digit, zero-padded decimal rendering of a value below one
/// thousand.
pub open spec fn spec_dec3(n: int) -> Seq<char> {
    seq![spec_digit(n / 100 % 10), spec_digit(n / 10 % 10), spec_digit(n % 10)]
}

/// The three-digit, zero-padded decimal rendering of a byte.
pub fn byte_to_dec3(n: u8) -> (r: String)
    ensures
        r@ == spec_dec3(n as int),
{
    let w = n as u64;
    let mut s = String::from_str(digit_str(w / 100 % 10));
    s.append(digit_str(w / 10 % 10));
    s.append(digit_str(w % 10));
    proof {
        assert(s@ =~= spec_dec3(n as int));
    }
    s
}

// ======================= Case folding =======================

/// What `str::to_lowercase` returns for a character sequence: the Unicode
/// lowercase folding, a function of the characters alone.
pub uninterp spec fn lower_of(s: Seq<char>) -> Seq<char>;

/// Relies on str::to_lowercase: the result depends on the input characters
/// alone, and an empty string stays empty.
#[verifier::external_body]
pub fn to_lowercase(s: &str) -> (r: String)
    ensures
        r@ == lower_of(s@),
        s@.len() == 0 ==> r@.len() == 0,
{
    s.to_lowercase()
}

/// What `str::to_uppercase` returns for a character sequence: the Unicode
/// uppercase mapping, a function of the characters alone.
pub uninterp spec fn upper_of(s: Seq<char>) -> Seq<char>;

/// Relies on str::to_uppercase: the result depends on the input characters
/// alone, and an empty string stays empty.
#[verifier::external_body]
pub fn to_uppercase(s: &str) -> (r: String)
    ensures
        r@ == upper_of(s@),
        s@.len() == 0 ==> r@.len() == 0,
{
    s.to_uppercase()
}

// ======================= UTF-8 decoding =======================

/// Relies on String::from_utf8: decodes the bytes as UTF-8, failing exactly
/// on byte sequences that are not valid UTF-8; on success the string's
/// characters are the decoding of the bytes.
#[verifier::external_body]
pub fn string_from_utf8(v: Vec<u8>) -> (r: Option<String>)
    ensures
        match r {
            Some(s) => valid_utf8(v@) && s@ == decode_utf8(v@),
            None => !valid_utf8(v@),
        },
{
    match String::from_utf8(v) {
        Ok(s) => Some(s),
        Err(_) => None,
    }
}

/// True exactly when the two strings hold the same characters.
pub fn str_eq(a: &str, b: &str) -> (r: bool)
    ensures
        r == (a@ == b@),
{
    let sa = a.to_owned();
    let sb = b.to_owned();
    sa == sb
}

} // verus!
