//! Character-level helpers on string slices.

use vstd::prelude::*;

verus! {

/// `needle` occurs in `hay` starting at position `i`.
pub open spec fn steht_an(hay: Seq<char>, needle: Seq<char>, i: int) -> bool {
    &&& 0 <= i
    &&& i + needle.len() <= hay.len()
    &&& hay.subrange(i, i + needle.len()) == needle
}

/// `needle` occurs somewhere in `hay`.
pub open spec fn kommt_vor(hay: Seq<char>, needle: Seq<char>) -> bool {
    exists|i: int| steht_an(hay, needle, i)
}

/// Compares two string slices character by character.
pub fn gleich(a: &str, b: &str) -> (r: bool)
    ensures
        r == (a@ == b@),
{
    let n = a.unicode_len();
    let m = b.unicode_len();
    if n != m {
        return false;
    }
    let mut i: usize = 0;
    while i < n
        invariant
            n == a@.len(),
            m == b@.len(),
            n == m,
            i <= n,
            forall|j: int| 0 <= j < i ==> a@[j] == b@[j],
        decreases n - i,
    {
        if a.get_char(i) != b.get_char(i) {
            return false;
        }
        i = i + 1;
    }
    assert(a@ =~= b@);
    true
}

/// Whether `needle` occurs in `hay` at position `i` (checked character by character).
fn steht_an_pruefen(hay: &str, needle: &str, i: usize, n: usize, m: usize) -> (r: bool)
    requires
        n == hay@.len(),
        m == needle@.len(),
        i + m <= n,
    ensures
        r == steht_an(hay@, needle@, i as int),
{
    let mut j: usize = 0;
    while j < m
        invariant
            n == hay@.len(),
            m == needle@.len(),
            i + m <= n,
            j <= m,
            forall|k: int| 0 <= k < j ==> hay@[i + k] == needle@[k],
        decreases m - j,
    {
        if hay.get_char(i + j) != needle.get_char(j) {
            assert(hay@.subrange(i as int, i + m)[j as int] != needle@[j as int]);
            return false;
        }
        j = j + 1;
    }
    assert(hay@.subrange(i as int, i + m) =~= needle@);
    true
}

/// Substring search: whether `needle` occurs anywhere in `hay`.
pub fn enthaelt(hay: &str, needle: &str) -> (r: bool)
    ensures
        r == kommt_vor(hay@, needle@),
{
    let n = hay.unicode_len();
    let m = needle.unicode_len();
    if m > n {
        assert(!kommt_vor(hay@, needle@));
        return false;
    }
    if m == 0 {
        assert(hay@.subrange(0, 0) =~= needle@);
        assert(steht_an(hay@, needle@, 0));
        return true;
    }
    let mut i: usize = 0;
    while i <= n - m
        invariant
            n == hay@.len(),
            m == needle@.len(),
            1 <= m <= n,
            i <= n - m + 1,
            forall|k: int| 0 <= k < i ==> !steht_an(hay@, needle@, k),
        decreases n - m + 1 - i,
    {
        if steht_an_pruefen(hay, needle, i, n, m) {
            return true;
        }
        i = i + 1;
    }
    assert(!kommt_vor(hay@, needle@));
    false
}


/// What `str::to_uppercase` makes of these characters (Unicode case mapping).
pub uninterp spec fn grossgeschrieben(s: Seq<char>) -> Seq<char>;

/// What `str::to_lowercase` makes of these characters (Unicode case mapping).
pub uninterp spec fn kleingeschrieben(s: Seq<char>) -> Seq<char>;

/// A character with the Unicode White_Space property, which is what
/// `char::is_whitespace` and `str::trim` go by.
pub open spec fn ist_leerraum(c: char) -> bool {
    let v = c as int;
    ||| 0x09 <= v <= 0x0D
    ||| v == 0x20
    ||| v == 0x85
    ||| v == 0xA0
    ||| v == 0x1680
    ||| 0x2000 <= v <= 0x200A
    ||| v == 0x2028
    ||| v == 0x2029
    ||| v == 0x202F
    ||| v == 0x205F
    ||| v == 0x3000
}

/// The characters without their leading whitespace.
pub open spec fn ohne_fuehrenden_leerraum(s: Seq<char>) -> Seq<char>
    decreases s.len(),
{
    if s.len() > 0 && ist_leerraum(s[0]) {
        ohne_fuehrenden_leerraum(s.drop_first())
    } else {
        s
    }
}

/// The characters without their trailing whitespace.
pub open spec fn ohne_folgenden_leerraum(s: Seq<char>) -> Seq<char>
    decreases s.len(),
{
    if s.len() > 0 && ist_leerraum(s.last()) {
        ohne_folgenden_leerraum(s.drop_last())
    } else {
        s
    }
}

/// What `str::trim` leaves of these characters: leading and trailing
/// whitespace removed.
pub open spec fn beschnitten(s: Seq<char>) -> Seq<char> {
    ohne_folgenden_leerraum(ohne_fuehrenden_leerraum(s))
}

/// Calls `str::to_uppercase`. Its result depends on the characters alone and
/// is named, not spelled out: Unicode's full case mapping.
#[verifier::external_body]
pub(crate) fn gross(s: &str) -> (r: String)
    ensures
        r@ == grossgeschrieben(s@),
{
    s.to_uppercase()
}

/// Calls `str::to_lowercase`. Its result depends on the characters alone and
/// is named, not spelled out: Unicode's full case mapping.
#[verifier::external_body]
pub(crate) fn klein(s: &str) -> (r: String)
    ensures
        r@ == kleingeschrieben(s@),
{
    s.to_lowercase()
}

/// Calls `str::trim`, which removes leading and trailing characters with the
/// Unicode White_Space property, as its documentation says.
#[verifier::external_body]
pub(crate) fn beschneiden<'a>(s: &'a str) -> (r: &'a str)
    ensures
        r@ == beschnitten(s@),
{
    s.trim()
}

/// The view of an optional string slice.
pub open spec fn optional_sicht(s: Option<&str>) -> Option<Seq<char>> {
    match s {
        Some(v) => Some(v@),
        None => None,
    }
}

} // verus!
