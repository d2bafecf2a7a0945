//! Percentages of 64-bit quantities, computed without intermediate overflow.

use vstd::prelude::*;

verus! {

/// `percent` hundredths of `base`, rounded down.
pub open spec fn percent_of(base: nat, percent: nat) -> nat {
    base * percent / 100
}

/// Computes `percent` hundredths of `base`, rounded down, in a width that holds the
/// result for every pair of arguments.
pub fn percent_of_wide(base: u64, percent: u64) -> (part: u128)
    ensures
        part == percent_of(base as nat, percent as nat),
        part <= 0xffff_ffff_ffff_ffff * 0xffff_ffff_ffff_ffff,
{
    assert(base * percent <= 0xffff_ffff_ffff_ffff * 0xffff_ffff_ffff_ffff) by (nonlinear_arith)
        requires
            base <= 0xffff_ffff_ffff_ffff,
            percent <= 0xffff_ffff_ffff_ffff,
    ;
    (base as u128) * (percent as u128) / 100
}

} // verus!
