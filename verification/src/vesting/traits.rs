//! What can be asked of a vesting, whatever its kind.
//!
//! Every trait speaks about its implementor through the implementor's view,
//! a [`VestingModel`], so that code written against the traits is proved for
//! every kind of vesting at once.

use crate::types::{AccountId, Balance, SecondTimeStamp, VestingError};
use crate::vesting::model::{lemma_released_bounded, linear_period, VestingModel};
use crate::vesting::VestingTokenInfo;
use vstd::prelude::*;

verus! {

/// A vesting that the owner can bar from claims, and open again.
pub trait Frozen: View<V = VestingModel> {
    /// Bars claims. Nothing else changes.
    fn freeze(&mut self)
        ensures
            final(self)@ == old(self)@.with_frozen(true),
    ;

    /// Opens the vesting for claims again. Nothing else changes.
    fn unfreeze(&mut self)
        ensures
            final(self)@ == old(self)@.with_frozen(false),
    ;

    fn is_frozen(&self) -> (frozen: bool)
        ensures
            frozen == self@.is_frozen,
    ;
}

/// A vesting has one beneficiary, who can be replaced.
pub trait Beneficiary: View<V = VestingModel> {
    fn get_beneficiary(&self) -> (account: AccountId)
        ensures
            account@ == self@.beneficiary,
    ;

    /// Hands the vesting to `account`. The amounts stay as they are.
    fn set_beneficiary(&mut self, account: AccountId)
        ensures
            final(self)@ == old(self)@.with_beneficiary(account@),
    ;
}

/// A vesting that releases from a first second to a last one.
pub trait NaturalTime: View<V = VestingModel> {
    fn get_start_time(&self) -> (time: SecondTimeStamp)
        ensures
            self@.schedule is Linear,
            time == self@.schedule->start_time,
    ;

    fn get_end_time(&self) -> (time: SecondTimeStamp)
        ensures
            self@.schedule is Linear,
            time == self@.schedule->end_time,
    ;

    /// The number of seconds from the first to the last, both included. It
    /// can be one more than the largest point in time.
    fn get_period(&self) -> (period: u128)
        requires
            self@.schedule is Linear ==> self@.schedule->start_time <= self@.schedule->end_time,
        ensures
            period == linear_period(self@.schedule->start_time, self@.schedule->end_time),
    {
        let end: u128 = self.get_end_time() as u128;
        let start: u128 = self.get_start_time() as u128;
        end - start + 1
    }
}

/// The two amounts that every vesting keeps: the total, and what has been
/// claimed of it.
pub trait VestingTokenInfoTrait: View<V = VestingModel> {
    fn get_vesting_token_info(&self) -> (info: &VestingTokenInfo)
        ensures
            info.claimed_token_amount == self@.claimed_amount,
            info.total_vesting_amount == self@.total_amount,
    ;

    /// Sets the claimed amount, which cannot exceed the total.
    fn set_claimed_token_amount(&mut self, amount: Balance)
        requires
            amount <= old(self)@.total_amount,
        ensures
            final(self)@ == old(self)@.with_claimed(amount),
    ;
}

/// The amounts of a vesting at a point in time.
pub trait VestingAmount: VestingTokenInfoTrait {
    /// The amount that the schedule has not released at `now`.
    fn get_unreleased_amount(&self, now: SecondTimeStamp) -> (amount: Balance)
        requires
            self@.wf(),
        ensures
            amount == self@.unreleased_amount(now),
    ;

    /// The amount that the schedule has released at `now`, claimed or not.
    fn get_released_amount(&self, now: SecondTimeStamp) -> (amount: Balance)
        requires
            self@.wf(),
        ensures
            amount == self@.released_amount(now),
    {
        let total: Balance = self.get_vesting_token_info().total_vesting_amount;
        let unreleased: Balance = self.get_unreleased_amount(now);
        proof {
            lemma_released_bounded(self@, now);
        }
        total - unreleased
    }

    /// The amount that is released at `now` and not claimed yet. It is only
    /// defined while no more has been claimed than is released at `now`.
    fn get_claimable_amount(&self, now: SecondTimeStamp) -> (amount: Balance)
        requires
            self@.wf(),
            self@.claimed_amount <= self@.released_amount(now),
        ensures
            amount == self@.claimable_amount(now),
    {
        let released: Balance = self.get_released_amount(now);
        released - self.get_vesting_token_info().claimed_token_amount
    }
}

/// A vesting that its beneficiary can claim from.
pub trait Claimable: VestingAmount + Frozen {
    /// Claims `amount`, or everything that is claimable at `now` where no
    /// amount is given, and returns what was granted.
    ///
    /// A frozen vesting rejects every claim, and so does any vesting a claim
    /// for more than is claimable. A rejected claim changes nothing.
    fn claim(&mut self, amount: Option<Balance>, now: SecondTimeStamp) -> (granted: Result<
        Balance,
        VestingError,
    >)
        requires
            old(self)@.wf(),
        ensures
            granted == old(self)@.claim_outcome(amount, now),
            final(self)@ == old(self)@.after_claim(amount, now),
            final(self)@.wf(),
    {
        proof {
            lemma_released_bounded(self@, now);
        }
        if self.is_frozen() {
            return Err(VestingError::FrozenVesting);
        }
        let released: Balance = self.get_released_amount(now);
        let claimed: Balance = self.get_vesting_token_info().claimed_token_amount;
        if released < claimed {
            return Err(VestingError::ArithmeticOverflow);
        }
        let claimable: Balance = released - claimed;
        let granted: Balance = match amount {
            Some(requested) => {
                if requested > claimable {
                    return Err(VestingError::InsufficientClaimable);
                }
                requested
            },
            None => claimable,
        };
        self.set_claimed_token_amount(claimed + granted);
        Ok(granted)
    }
}

/// When a vesting is over.
pub trait Finish: VestingTokenInfoTrait {
    /// Whether the schedule has run to its end at `now`.
    fn is_release_finish(&self, now: SecondTimeStamp) -> (finished: bool)
        ensures
            finished == self@.release_finished(now),
    ;

    /// Whether the whole amount has been claimed.
    fn is_vesting_finish(&self) -> (finished: bool)
        ensures
            finished == self@.vesting_finished(),
    {
        let info = self.get_vesting_token_info();
        info.total_vesting_amount == info.claimed_token_amount
    }
}

} // verus!
