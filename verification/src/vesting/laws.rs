//! What holds of every vesting, proved over its model.

use crate::types::VestingError;
use crate::vesting::model::{
    lemma_finished_releases_all, lemma_released_bounded, lemma_released_monotonic, VestingModel,
};
use vstd::prelude::*;

verus! {

/// The released amount of a vesting of any kind never goes down as time goes
/// on, lies between nothing and the total amount, and is the total amount
/// from the end of the schedule on.
pub proof fn law_released_amount(vesting: VestingModel, earlier: u64, later: u64)
    requires
        vesting.wf(),
        earlier <= later,
    ensures
        0 <= vesting.released_amount(earlier) <= vesting.released_amount(later)
            <= vesting.total_amount,
        vesting.release_finished(earlier) ==> vesting.released_amount(earlier)
            == vesting.total_amount && vesting.released_amount(later) == vesting.total_amount,
{
    lemma_released_bounded(vesting, earlier);
    lemma_released_bounded(vesting, later);
    lemma_released_monotonic(vesting, earlier, later);
    if vesting.release_finished(earlier) {
        lemma_finished_releases_all(vesting, earlier);
    }
}

/// The claimable amount of a vesting of any kind never goes down as time
/// goes on, and what is claimed and claimable together never exceed the total
/// amount.
pub proof fn law_claimable_amount(vesting: VestingModel, earlier: u64, later: u64)
    requires
        vesting.wf(),
        earlier <= later,
    ensures
        vesting.claimable_amount(earlier) <= vesting.claimable_amount(later),
        vesting.claimed_amount + vesting.claimable_amount(later) <= vesting.total_amount,
        vesting.release_finished(earlier) ==> vesting.claimable_amount(later)
            == vesting.total_amount - vesting.claimed_amount,
{
    law_released_amount(vesting, earlier, later);
}

/// As long as nothing is claimed from a linear vesting, its claimable amount
/// never goes down as time goes on, lies between nothing and the total
/// amount, is the total amount at the end time, and stays there.
pub proof fn law_linear_claimable(vesting: VestingModel, earlier: u64, later: u64)
    requires
        vesting.wf(),
        vesting.schedule is Linear,
        vesting.claimed_amount == 0,
        earlier <= later,
    ensures
        0 <= vesting.claimable_amount(earlier) <= vesting.claimable_amount(later)
            <= vesting.total_amount,
        vesting.claimable_amount(vesting.schedule->end_time) == vesting.total_amount,
        vesting.schedule->end_time <= later ==> vesting.claimable_amount(later)
            == vesting.total_amount,
{
    law_released_amount(vesting, earlier, later);
}

/// From a vesting that is not frozen, and from which no more is claimed than
/// is released, a claim for more than the claimable amount is rejected, and
/// a claim for exactly the claimable amount is granted and leaves nothing
/// claimable.
pub proof fn law_claim_up_to_claimable(vesting: VestingModel, requested: u128, now: u64)
    requires
        vesting.wf(),
        !vesting.is_frozen,
        vesting.claimed_amount <= vesting.released_amount(now),
    ensures
        requested > vesting.claimable_amount(now) ==> {
            &&& vesting.claim_outcome(Some(requested), now) == Err::<u128, VestingError>(
                VestingError::InsufficientClaimable,
            )
            &&& vesting.after_claim(Some(requested), now) == vesting
        },
        requested == vesting.claimable_amount(now) ==> {
            &&& vesting.claim_outcome(Some(requested), now) == Ok::<u128, VestingError>(requested)
            &&& vesting.after_claim(Some(requested), now).claimable_amount(now) == 0
        },
        vesting.claim_outcome(None, now) == Ok::<u128, VestingError>(
            vesting.claimable_amount(now) as u128,
        ),
        vesting.after_claim(None, now).claimable_amount(now) == 0,
{
    lemma_released_bounded(vesting, now);
}

/// A frozen vesting rejects every claim. Freezing and unfreezing leave the
/// amounts as they are, and after unfreezing a claim has the outcome it would
/// have had without the freeze.
pub proof fn law_freeze_blocks_claims(vesting: VestingModel, requested: Option<u128>, now: u64)
    ensures
        vesting.with_frozen(true).claim_outcome(requested, now) == Err::<u128, VestingError>(
            VestingError::FrozenVesting,
        ),
        vesting.with_frozen(true).after_claim(requested, now) == vesting.with_frozen(true),
        vesting.with_frozen(true).claimed_amount == vesting.claimed_amount,
        vesting.with_frozen(true).with_frozen(false) == vesting.with_frozen(false),
        vesting.with_frozen(true).with_frozen(false).claimed_amount == vesting.claimed_amount,
        !vesting.is_frozen ==> vesting.with_frozen(true).with_frozen(false).claim_outcome(
            requested,
            now,
        ) == vesting.claim_outcome(requested, now),
{
}

} // verus!
