//! The mute indicator's text.
use vstd::prelude::*;

verus! {

/// `"M"` when muted, `"U"` otherwise.
pub fn mute_label(is_muted: bool) -> (s: &'static str)
    ensures
        s@ == (if is_muted { seq!['M'] } else { seq!['U'] }),
{
    proof {
        reveal_strlit("M");
        reveal_strlit("U");
    }
    if is_muted { "M" } else { "U" }
}

} // verus!
