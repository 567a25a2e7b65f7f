//! Vestings that release their amount in steps.

use crate::types::{AccountId, Balance, SecondTimeStamp, VestingId};
use crate::vesting::model::{
    checkpoints_after, lemma_checkpoints_after_bounded, lemma_checkpoints_total_prefix, Schedule,
    VestingModel,
};
use crate::vesting::traits::{
    Beneficiary, Claimable, Finish, Frozen, VestingAmount, VestingTokenInfoTrait,
};
use crate::vesting::VestingTokenInfo;
use vstd::prelude::*;

verus! {

/// A vesting that releases the amount of each checkpoint once the time of
/// the checkpoint has come.
#[derive(Debug, PartialEq, Eq)]
pub struct TimeCliffVesting {
    pub id: VestingId,
    pub beneficiary: AccountId,
    pub time_cliff_list: Vec<CliffVestingCheckpoint>,
    pub vesting_token_info: VestingTokenInfo,
    pub is_frozen: bool,
    pub create_time: SecondTimeStamp,
}

/// A step of a cliff vesting: `amount` is released once `time` has come.
#[derive(Debug, Clone, Copy, PartialEq, Eq)]
pub struct CliffVestingCheckpoint {
    pub time: SecondTimeStamp,
    pub amount: Balance,
}

impl View for TimeCliffVesting {
    type V = VestingModel;

    open spec fn view(&self) -> VestingModel {
        VestingModel {
            id: self.id,
            beneficiary: self.beneficiary@,
            schedule: Schedule::Cliff { checkpoints: self.time_cliff_list@ },
            total_amount: self.vesting_token_info.total_vesting_amount,
            claimed_amount: self.vesting_token_info.claimed_token_amount,
            is_frozen: self.is_frozen,
            create_time: self.create_time,
        }
    }
}

impl Clone for TimeCliffVesting {
    fn clone(&self) -> (copy: Self)
        ensures
            copy@ == self@,
    {
        TimeCliffVesting {
            id: self.id,
            beneficiary: self.beneficiary.clone(),
            time_cliff_list: self.time_cliff_list.clone(),
            vesting_token_info: self.vesting_token_info,
            is_frozen: self.is_frozen,
            create_time: self.create_time,
        }
    }
}

impl Finish for TimeCliffVesting {
    /// The schedule is over when the latest checkpoint has passed; one
    /// without checkpoints is over from the start.
    fn is_release_finish(&self, now: SecondTimeStamp) -> (finished: bool) {
        let mut max_time: SecondTimeStamp = 0;
        let mut i: usize = 0;
        while i < self.time_cliff_list.len()
            invariant
                i <= self.time_cliff_list.len(),
                forall|j: int|
                    0 <= j < i ==> (#[trigger] self.time_cliff_list@[j]).time <= max_time,
                max_time == 0 || exists|j: int|
                    0 <= j < i && (#[trigger] self.time_cliff_list@[j]).time == max_time,
            decreases self.time_cliff_list.len() - i,
        {
            if self.time_cliff_list[i].time > max_time {
                max_time = self.time_cliff_list[i].time;
            }
            i += 1;
        }
        max_time <= now
    }
}

impl Frozen for TimeCliffVesting {
    fn freeze(&mut self) {
        self.is_frozen = true;
    }

    fn unfreeze(&mut self) {
        self.is_frozen = false;
    }

    fn is_frozen(&self) -> (frozen: bool) {
        self.is_frozen
    }
}

impl Beneficiary for TimeCliffVesting {
    fn get_beneficiary(&self) -> (account: AccountId) {
        self.beneficiary.clone()
    }

    fn set_beneficiary(&mut self, account: AccountId) {
        self.beneficiary = account;
    }
}

impl VestingTokenInfoTrait for TimeCliffVesting {
    fn get_vesting_token_info(&self) -> (info: &VestingTokenInfo) {
        &self.vesting_token_info
    }

    fn set_claimed_token_amount(&mut self, amount: Balance) {
        self.vesting_token_info.claimed_token_amount = amount;
    }
}

impl VestingAmount for TimeCliffVesting {
    /// The sum of the checkpoints that lie ahead. All checkpoints are looked
    /// at, in whatever order they are.
    fn get_unreleased_amount(&self, now: SecondTimeStamp) -> (amount: Balance) {
        let mut amount: Balance = 0;
        let mut i: usize = 0;
        while i < self.time_cliff_list.len()
            invariant
                i <= self.time_cliff_list.len(),
                self@.wf(),
                amount == checkpoints_after(self.time_cliff_list@.take(i as int), now),
            decreases self.time_cliff_list.len() - i,
        {
            proof {
                let next = self.time_cliff_list@.take(i + 1);
                assert(next.drop_last() =~= self.time_cliff_list@.take(i as int));
                lemma_checkpoints_after_bounded(next, now);
                lemma_checkpoints_total_prefix(self.time_cliff_list@, i + 1);
            }
            if self.time_cliff_list[i].time > now {
                amount = amount + self.time_cliff_list[i].amount;
            }
            i += 1;
        }
        proof {
            assert(self.time_cliff_list@.take(i as int) =~= self.time_cliff_list@);
        }
        amount
    }
}

impl Claimable for TimeCliffVesting {

}

} // verus!
