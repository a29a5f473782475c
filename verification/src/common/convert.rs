//! What the contracts take from std about conversions.

use vstd::prelude::*;

verus! {

/// `From::from` of std from a type to itself: the value as it is.
pub assume_specification<U>[ <U as From<U>>::from ](given: U) -> (taken: U)
    ensures
        taken == given,
;

} // verus!
