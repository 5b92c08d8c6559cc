//! The languages the interface offers, in the order of the selection list.

use crate::text::gleich;
use vstd::prelude::*;

verus! {

/// The language codes offered, in list order: English, German.
pub open spec fn sprach_codes() -> Seq<Seq<char>> {
    seq!["en"@, "de"@]
}

/// The display names, in list order.
pub open spec fn sprach_namen() -> Seq<Seq<char>> {
    seq!["English"@, "Deutsch"@]
}

/// The display names of the offered languages, in list order.
pub fn sprach_anzeigenamen() -> (r: Vec<&'static str>)
    ensures
        r@.len() == sprach_namen().len(),
        forall|i: int| 0 <= i < r@.len() ==> (#[trigger] r@[i])@ == sprach_namen()[i],
{
    vec!["English", "Deutsch"]
}

/// The language code at `index` in the list, if there is one.
pub fn sprach_code(index: u32) -> (r: Option<&'static str>)
    ensures
        match r {
            Some(c) => index < sprach_codes().len() && c@ == sprach_codes()[index as int],
            None => index >= sprach_codes().len(),
        },
{
    if index == 0 {
        Some("en")
    } else if index == 1 {
        Some("de")
    } else {
        None
    }
}

/// The position of the language `code` in the list, if it is offered.
pub fn sprach_position(code: &str) -> (r: Option<u32>)
    ensures
        match r {
            Some(i) => i < sprach_codes().len() && sprach_codes()[i as int] == code@,
            None => forall|i: int| 0 <= i < sprach_codes().len() ==> sprach_codes()[i] != code@,
        },
{
    if gleich(code, "en") {
        Some(0)
    } else if gleich(code, "de") {
        Some(1)
    } else {
        proof {
            assert(sprach_codes()[0] == "en"@);
            assert(sprach_codes()[1] == "de"@);
        }
        None
    }
}

/// The list offers each code once: the languages are told apart by code.
pub proof fn gesetz_sprachen_eindeutig()
    ensures
        forall|i: int, j: int|
            0 <= i < sprach_codes().len() && 0 <= j < sprach_codes().len() && i != j
                ==> sprach_codes()[i] != sprach_codes()[j],
{
    reveal_strlit("en");
    reveal_strlit("de");
    assert(sprach_codes()[0] != sprach_codes()[1]) by {
        assert(sprach_codes()[0][0] != sprach_codes()[1][0]);
    }
}

} // verus!
