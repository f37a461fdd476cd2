//! The width ladder that both families of integers share: 8, 16, 32, 64 and 128 bits.
use vstd::prelude::*;

verus! {

/// Whether five predicates, narrowest rung first, can be those of one bound: once a rung
/// holds the bound every wider rung holds it too, and the widest rung always does.
/// For each such vector, and for no other, a type is selected.
pub open spec fn is_ladder_vector(fits: (bool, bool, bool, bool, bool)) -> bool {
    &&& fits.0 ==> fits.1
    &&& fits.1 ==> fits.2
    &&& fits.2 ==> fits.3
    &&& fits.3 ==> fits.4
    &&& fits.4
}

} // verus!
