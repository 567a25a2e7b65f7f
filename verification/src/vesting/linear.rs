//! Vestings that release their amount evenly over a span of time.

use crate::math::mul_div;
use crate::types::{AccountId, Balance, SecondTimeStamp, VestingId};
use crate::vesting::model::{Schedule, VestingModel};
use crate::vesting::traits::{
    Beneficiary, Claimable, Finish, Frozen, NaturalTime, VestingAmount, VestingTokenInfoTrait,
};
use crate::vesting::VestingTokenInfo;
use vstd::prelude::*;

verus! {

/// A vesting that releases an equal part of its amount with every second
/// from `start_time` to `end_time`.
#[derive(Debug, PartialEq, Eq)]
pub struct NaturalTimeLinearVesting {
    pub id: VestingId,
    pub beneficiary: AccountId,
    pub start_time: SecondTimeStamp,
    pub end_time: SecondTimeStamp,
    pub vesting_token_info: VestingTokenInfo,
    pub is_frozen: bool,
    pub create_time: SecondTimeStamp,
}

impl View for NaturalTimeLinearVesting {
    type V = VestingModel;

    open spec fn view(&self) -> VestingModel {
        VestingModel {
            id: self.id,
            beneficiary: self.beneficiary@,
            schedule: Schedule::Linear { start_time: self.start_time, end_time: self.end_time },
            total_amount: self.vesting_token_info.total_vesting_amount,
            claimed_amount: self.vesting_token_info.claimed_token_amount,
            is_frozen: self.is_frozen,
            create_time: self.create_time,
        }
    }
}

impl Clone for NaturalTimeLinearVesting {
    fn clone(&self) -> (copy: Self)
        ensures
            copy == *self,
    {
        NaturalTimeLinearVesting {
            id: self.id,
            beneficiary: self.beneficiary.clone(),
            start_time: self.start_time,
            end_time: self.end_time,
            vesting_token_info: self.vesting_token_info,
            is_frozen: self.is_frozen,
            create_time: self.create_time,
        }
    }
}

impl Finish for NaturalTimeLinearVesting {
    fn is_release_finish(&self, now: SecondTimeStamp) -> (finished: bool) {
        self.end_time <= now
    }
}

impl Frozen for NaturalTimeLinearVesting {
    fn freeze(&mut self) {
        self.is_frozen = true;
    }

    fn unfreeze(&mut self) {
        self.is_frozen = false;
    }

    fn is_frozen(&self) -> (frozen: bool) {
        self.is_frozen
    }
}

impl Beneficiary for NaturalTimeLinearVesting {
    fn get_beneficiary(&self) -> (account: AccountId) {
        self.beneficiary.clone()
    }

    fn set_beneficiary(&mut self, account: AccountId) {
        self.beneficiary = account;
    }
}

impl VestingTokenInfoTrait for NaturalTimeLinearVesting {
    fn get_vesting_token_info(&self) -> (info: &VestingTokenInfo) {
        &self.vesting_token_info
    }

    fn set_claimed_token_amount(&mut self, amount: Balance) {
        self.vesting_token_info.claimed_token_amount = amount;
    }
}

impl NaturalTime for NaturalTimeLinearVesting {
    fn get_start_time(&self) -> (time: SecondTimeStamp) {
        self.start_time
    }

    fn get_end_time(&self) -> (time: SecondTimeStamp) {
        self.end_time
    }
}

impl VestingAmount for NaturalTimeLinearVesting {
    /// The total amount times the seconds that lie ahead, divided by the
    /// seconds of the whole period. The product is never rounded or cut.
    fn get_unreleased_amount(&self, now: SecondTimeStamp) -> (amount: Balance) {
        let period: u128 = self.get_period();
        let ahead: u128 = if self.end_time <= now {
            0
        } else {
            (self.end_time - now) as u128
        };
        let remaining: u128 = if ahead <= period {
            ahead
        } else {
            period
        };
        mul_div(self.vesting_token_info.total_vesting_amount, remaining, period)
    }
}

impl Claimable for NaturalTimeLinearVesting {

}

} // verus!
