//! The split of a distributed yield amount between the charity donation
//! and the pool's retained share.

use vstd::prelude::*;

verus! {

/// The donation taken out of a yield amount: `floor(amount * percentage / 100)`.
pub open spec fn donation_of(amount: int, percentage: int) -> int {
    amount * percentage / 100
}

/// What the pool retains of a yield amount after the donation.
pub open spec fn remaining_of(amount: int, percentage: int) -> int {
    amount - donation_of(amount, percentage)
}

/// The split is lossless and never leaves either share negative: for any
/// non-negative yield amount and any percentage in range, the donation and
/// the remainder are each between zero and the amount, and together they
/// add back up to exactly the amount.
pub proof fn lemma_donation_split(amount: int, percentage: int)
    requires
        0 <= amount,
        0 <= percentage <= 100,
    ensures
        donation_of(amount, percentage) + remaining_of(amount, percentage) == amount,
        0 <= donation_of(amount, percentage) <= amount,
        0 <= remaining_of(amount, percentage) <= amount,
{
    assert(0 <= amount * percentage <= amount * 100) by (nonlinear_arith)
        requires
            0 <= amount,
            0 <= percentage <= 100,
    ;
    assert(0 <= amount * percentage / 100 <= amount * 100 / 100) by (nonlinear_arith)
        requires
            0 <= amount * percentage <= amount * 100,
    ;
    assert(amount * 100 / 100 == amount) by (nonlinear_arith);
}

} // verus!
