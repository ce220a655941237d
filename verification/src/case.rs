//! Unicode case mapping, taken from the standard library on trust.

use vstd::prelude::*;

verus! {

/// The upper-case form of a text under Unicode's full case mapping.
pub uninterp spec fn uppercase_of(text: Seq<char>) -> Seq<char>;

/// The lower-case form of a text under Unicode's full case mapping.
pub uninterp spec fn lowercase_of(text: Seq<char>) -> Seq<char>;

/// `str::to_uppercase` is believed to compute one fixed function of the
/// characters it is given; nothing more is claimed of what that function is.
pub assume_specification[ str::to_uppercase ](text: &str) -> (upper: String)
    ensures
        upper@ == uppercase_of(text@),
;

/// `str::to_lowercase` is believed to compute one fixed function of the
/// characters it is given; nothing more is claimed of what that function is.
pub assume_specification[ str::to_lowercase ](text: &str) -> (lower: String)
    ensures
        lower@ == lowercase_of(text@),
;

} // verus!
