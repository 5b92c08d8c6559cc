//! Decimal text of integers: writing `u32`/`i32` as the standard library's
//! `Display` does, and reading a `u32` as its `FromStr` does.

use vstd::prelude::*;

verus! {

broadcast use vstd::string::group_string_axioms;

/// The digit character for `d` in `0..10`.
pub open spec fn ziffer_zeichen(d: int) -> char {
    if d == 0 {
        '0'
    } else if d == 1 {
        '1'
    } else if d == 2 {
        '2'
    } else if d == 3 {
        '3'
    } else if d == 4 {
        '4'
    } else if d == 5 {
        '5'
    } else if d == 6 {
        '6'
    } else if d == 7 {
        '7'
    } else if d == 8 {
        '8'
    } else {
        '9'
    }
}

/// The decimal digits of `n`, most significant first, without leading zeros.
pub open spec fn dezimal(n: nat) -> Seq<char>
    decreases n,
{
    if n < 10 {
        seq![ziffer_zeichen(n as int)]
    } else {
        dezimal(n / 10).push(ziffer_zeichen((n % 10) as int))
    }
}

/// The decimal text of a signed number: a minus sign before negative values.
pub open spec fn dezimal_vorzeichen(v: int) -> Seq<char> {
    if v < 0 {
        seq!['-'] + dezimal((-v) as nat)
    } else {
        dezimal(v as nat)
    }
}

/// An ASCII decimal digit.
pub open spec fn ist_ziffer(c: char) -> bool {
    48 <= (c as int) <= 57
}

/// Every character is an ASCII decimal digit.
pub open spec fn alles_ziffern(s: Seq<char>) -> bool {
    forall|i: int| 0 <= i < s.len() ==> ist_ziffer(#[trigger] s[i])
}

/// The value of a string of decimal digits.
pub open spec fn ziffern_wert(s: Seq<char>) -> nat
    decreases s.len(),
{
    if s.len() == 0 {
        0
    } else {
        ziffern_wert(s.drop_last()) * 10 + ((s.last() as int) - 48) as nat
    }
}

/// The digits after an optional leading `+`.
pub open spec fn ohne_plus(s: Seq<char>) -> Seq<char> {
    if s.len() > 0 && s[0] == '+' {
        s.subrange(1, s.len() as int)
    } else {
        s
    }
}

/// A `u32` as `str::parse` reads it: an optional `+` followed by at least
/// one digit and nothing else, with a value that fits.
pub open spec fn u32_aus_text(s: Seq<char>) -> Option<u32> {
    let d = ohne_plus(s);
    if d.len() > 0 && alles_ziffern(d) && ziffern_wert(d) <= u32::MAX {
        Some(ziffern_wert(d) as u32)
    } else {
        None
    }
}

/// The text of one decimal digit.
fn ziffer_text(d: u32) -> (r: &'static str)
    requires
        d < 10,
    ensures
        r@ == seq![ziffer_zeichen(d as int)],
{
    proof {
        reveal_strlit("0");
        reveal_strlit("1");
        reveal_strlit("2");
        reveal_strlit("3");
        reveal_strlit("4");
        reveal_strlit("5");
        reveal_strlit("6");
        reveal_strlit("7");
        reveal_strlit("8");
        reveal_strlit("9");
    }
    if d == 0 {
        "0"
    } else if d == 1 {
        "1"
    } else if d == 2 {
        "2"
    } else if d == 3 {
        "3"
    } else if d == 4 {
        "4"
    } else if d == 5 {
        "5"
    } else if d == 6 {
        "6"
    } else if d == 7 {
        "7"
    } else if d == 8 {
        "8"
    } else {
        "9"
    }
}

/// Writes `n` in decimal, as `n.to_string()` does.
pub fn u32_text(n: u32) -> (s: String)
    ensures
        s@ == dezimal(n as nat),
    decreases n,
{
    if n < 10 {
        ziffer_text(n).to_string()
    } else {
        let mut s = u32_text(n / 10);
        s.append(ziffer_text(n % 10));
        s
    }
}

/// Writes `v` in decimal with a leading `-` when negative, as `v.to_string()` does.
pub fn i32_text(v: i32) -> (s: String)
    ensures
        s@ == dezimal_vorzeichen(v as int),
{
    if v < 0 {
        let betrag: u32 = (0i64 - (v as i64)) as u32;
        let mut s = "-".to_string();
        proof {
            reveal_strlit("-");
        }
        s.append(u32_text(betrag).as_str());
        s
    } else {
        u32_text(v as u32)
    }
}


/// The value of a digit string does not shrink when digits are appended.
proof fn lemma_wert_monoton(s: Seq<char>, k: int)
    requires
        0 <= k <= s.len(),
        alles_ziffern(s),
    ensures
        ziffern_wert(s.subrange(0, k)) <= ziffern_wert(s),
    decreases s.len(),
{
    if k < s.len() {
        let kurz = s.drop_last();
        assert(alles_ziffern(kurz)) by {
            assert forall|i: int| 0 <= i < kurz.len() implies ist_ziffer(#[trigger] kurz[i]) by {
                assert(kurz[i] == s[i]);
            }
        }
        lemma_wert_monoton(kurz, k);
        assert(kurz.subrange(0, k) =~= s.subrange(0, k));
        assert(ist_ziffer(s[s.len() - 1]));
    } else {
        assert(s.subrange(0, k) =~= s);
    }
}

/// Reads a `u32` as `text.parse::<u32>()` does: an optional `+` followed by
/// at least one ASCII digit and nothing else, within range.
pub fn u32_lesen(text: &str) -> (r: Option<u32>)
    ensures
        r == u32_aus_text(text@),
{
    let n = text.unicode_len();
    let mut start: usize = 0;
    if n > 0 && text.get_char(0) == '+' {
        start = 1;
    }
    let ghost d = ohne_plus(text@);
    assert(d =~= text@.subrange(start as int, n as int));
    if start >= n {
        return None;
    }
    let mut wert: u64 = 0;
    let mut i: usize = start;
    while i < n
        invariant
            n == text@.len(),
            start <= i <= n,
            d == text@.subrange(start as int, n as int),
            d == ohne_plus(text@),
            alles_ziffern(d.subrange(0, i - start)),
            wert == ziffern_wert(d.subrange(0, i - start)),
            wert <= u32::MAX,
        decreases n - i,
    {
        let c = text.get_char(i);
        let code = c as u32;
        if code < 48 || code > 57 {
            assert(d[i - start] == c);
            assert(!alles_ziffern(d));
            return None;
        }
        let ghost vorher = d.subrange(0, i - start);
        let ghost nachher = d.subrange(0, i - start + 1);
        assert(nachher.drop_last() =~= vorher);
        assert(nachher.last() == c);
        let neu: u64 = wert * 10 + (code - 48) as u64;
        assert(alles_ziffern(nachher)) by {
            assert forall|j: int| 0 <= j < nachher.len() implies ist_ziffer(#[trigger] nachher[j]) by {
                if j < vorher.len() {
                    assert(nachher[j] == vorher[j]);
                }
            }
        }
        if neu > 4294967295u64 {
            proof {
                if alles_ziffern(d) {
                    lemma_wert_monoton(d, i - start + 1);
                }
            }
            return None;
        }
        wert = neu;
        i = i + 1;
    }
    assert(d.subrange(0, n - start) =~= d);
    Some(wert as u32)
}

/// The digit characters stand for their values.
proof fn lemma_ziffer(d: int)
    requires
        0 <= d < 10,
    ensures
        ist_ziffer(ziffer_zeichen(d)),
        (ziffer_zeichen(d) as int) - 48 == d,
{
}

/// The decimal text of a number is a non-empty string of digits worth that number.
pub proof fn lemma_dezimal(n: nat)
    ensures
        dezimal(n).len() > 0,
        alles_ziffern(dezimal(n)),
        ziffern_wert(dezimal(n)) == n,
    decreases n,
{
    if n < 10 {
        lemma_ziffer(n as int);
        let s = dezimal(n);
        assert(s.drop_last() =~= Seq::<char>::empty());
        assert(ziffern_wert(s.drop_last()) == 0);
        assert(s.last() == ziffer_zeichen(n as int));
    } else {
        lemma_dezimal(n / 10);
        lemma_ziffer((n % 10) as int);
        let s = dezimal(n);
        assert(s.drop_last() =~= dezimal(n / 10));
        assert forall|i: int| 0 <= i < s.len() implies ist_ziffer(#[trigger] s[i]) by {
            if i < s.len() - 1 {
                assert(s[i] == dezimal(n / 10)[i]);
            }
        }
    }
}

/// Round-trip law: reading back the decimal text of any `u32` gives that
/// number again.
pub proof fn gesetz_zahl_rundweg(n: u32)
    ensures
        u32_aus_text(dezimal(n as nat)) == Some(n),
{
    lemma_dezimal(n as nat);
    let s = dezimal(n as nat);
    assert(ist_ziffer(s[0]));
    assert(ohne_plus(s) == s);
}

} // verus!
