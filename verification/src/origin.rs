//! The etymological-origin dimension: Sino-Japanese or native-Japanese.
//!
//! Unlike the mandatory dimensions this one is best-effort: a marker outside
//! the enumeration, or an absent marker field, yields no origin rather than
//! an error.

use vstd::prelude::*;

use crate::split::str_eq;

verus! {

/// The etymological origin of a word's reading.
#[derive(Clone, Copy, Debug, PartialEq, Eq, Structural)]
pub enum Origin {
    China,
    Japan,
}

/// The origin an origin-marker tag decodes to, if any.
pub open spec fn spec_origin(t: Seq<char>) -> Option<Origin> {
    if t == "漢"@ {
        Some(Origin::China)
    } else if t == "和"@ {
        Some(Origin::Japan)
    } else {
        None
    }
}

impl Origin {
    /// Decodes an origin marker; anything outside the enumeration is no
    /// origin, never an error.
    pub fn from_string(s: &str) -> (r: Option<Origin>)
        ensures
            r == spec_origin(s@),
    {
        if str_eq(s, "漢") {
            Some(Origin::China)
        } else if str_eq(s, "和") {
            Some(Origin::Japan)
        } else {
            None
        }
    }
}

/// Coverage of the origin markers: the two known markers decode to their
/// documented origins, and every other marker decodes to no origin.
pub proof fn lemma_origin_closed(t: Seq<char>)
    ensures
        t == "漢"@ ==> spec_origin(t) == Some(Origin::China),
        t == "和"@ ==> spec_origin(t) == Some(Origin::Japan),
        !(t == "漢"@ || t == "和"@) ==> spec_origin(t) is None,
{
    reveal_strlit("漢");
    reveal_strlit("和");
    assert("漢"@[0] == '漢');
    assert("和"@[0] == '和');
}

} // verus!
