//! Vestings: what they are, and what can be done with one of them.

use crate::types::{AccountId, Balance, SecondTimeStamp, VestingError, VestingId};
use crate::vesting::cliff::{CliffVestingCheckpoint, TimeCliffVesting};
use crate::vesting::linear::NaturalTimeLinearVesting;
use crate::vesting::model::{
    checkpoints_total, lemma_checkpoints_total_prefix, Schedule, VestingModel,
};
use crate::vesting::traits::{
    Beneficiary, Claimable, Finish, Frozen, VestingAmount, VestingTokenInfoTrait,
};
use vstd::prelude::*;

pub mod cliff;
pub mod laws;
pub mod linear;
pub mod model;
pub mod traits;

verus! {

/// A vesting of either kind.
#[derive(Debug, PartialEq, Eq)]
pub enum Vesting {
    NaturalTimeLinearVesting(NaturalTimeLinearVesting),
    TimeCliffVesting(TimeCliffVesting),
}

/// What the owner states when creating a vesting.
#[derive(Debug, Clone, PartialEq, Eq)]
pub enum VestingCreateParam {
    LinearVesting {
        beneficiary: AccountId,
        start_time: SecondTimeStamp,
        end_time: SecondTimeStamp,
        total_vesting_amount: Balance,
    },
    CliffVesting { beneficiary: AccountId, time_cliff_list: Vec<CliffVestingCheckpoint> },
}

/// The amounts of a vesting.
#[derive(Debug, Clone, Copy, PartialEq, Eq)]
pub struct VestingTokenInfo {
    pub claimed_token_amount: Balance,
    pub total_vesting_amount: Balance,
}

impl View for Vesting {
    type V = VestingModel;

    open spec fn view(&self) -> VestingModel {
        match self {
            Vesting::NaturalTimeLinearVesting(linear) => linear@,
            Vesting::TimeCliffVesting(cliff) => cliff@,
        }
    }
}

impl Clone for Vesting {
    fn clone(&self) -> (copy: Self)
        ensures
            copy@ == self@,
    {
        match self {
            Vesting::NaturalTimeLinearVesting(linear) => Vesting::NaturalTimeLinearVesting(
                linear.clone(),
            ),
            Vesting::TimeCliffVesting(cliff) => Vesting::TimeCliffVesting(cliff.clone()),
        }
    }
}

impl VestingCreateParam {
    /// Whether a vesting can be made of these statements: a linear one ends
    /// after it starts, and the checkpoints of a cliff one add up to an amount
    /// that a balance can hold.
    pub open spec fn valid(self) -> bool {
        match self {
            VestingCreateParam::LinearVesting { start_time, end_time, .. } => start_time
                < end_time,
            VestingCreateParam::CliffVesting { time_cliff_list, .. } => checkpoints_total(
                time_cliff_list@,
            ) <= u128::MAX,
        }
    }

    /// The vesting that is made of these statements under the number `id` at
    /// the time `now`: nothing of it is claimed, and it is not frozen.
    pub open spec fn model(self, id: VestingId, now: SecondTimeStamp) -> VestingModel {
        match self {
            VestingCreateParam::LinearVesting {
                beneficiary,
                start_time,
                end_time,
                total_vesting_amount,
            } => VestingModel {
                id,
                beneficiary: beneficiary@,
                schedule: Schedule::Linear { start_time, end_time },
                total_amount: total_vesting_amount,
                claimed_amount: 0,
                is_frozen: false,
                create_time: now,
            },
            VestingCreateParam::CliffVesting { beneficiary, time_cliff_list } => VestingModel {
                id,
                beneficiary: beneficiary@,
                schedule: Schedule::Cliff { checkpoints: time_cliff_list@ },
                total_amount: checkpoints_total(time_cliff_list@) as u128,
                claimed_amount: 0,
                is_frozen: false,
                create_time: now,
            },
        }
    }
}

impl Frozen for Vesting {
    fn freeze(&mut self) {
        match self {
            Vesting::NaturalTimeLinearVesting(linear) => linear.freeze(),
            Vesting::TimeCliffVesting(cliff) => cliff.freeze(),
        }
    }

    fn unfreeze(&mut self) {
        match self {
            Vesting::NaturalTimeLinearVesting(linear) => linear.unfreeze(),
            Vesting::TimeCliffVesting(cliff) => cliff.unfreeze(),
        }
    }

    fn is_frozen(&self) -> (frozen: bool) {
        match self {
            Vesting::NaturalTimeLinearVesting(linear) => linear.is_frozen,
            Vesting::TimeCliffVesting(cliff) => cliff.is_frozen,
        }
    }
}

impl VestingTokenInfoTrait for Vesting {
    fn get_vesting_token_info(&self) -> (info: &VestingTokenInfo) {
        match self {
            Vesting::NaturalTimeLinearVesting(linear) => linear.get_vesting_token_info(),
            Vesting::TimeCliffVesting(cliff) => cliff.get_vesting_token_info(),
        }
    }

    fn set_claimed_token_amount(&mut self, amount: Balance) {
        match self {
            Vesting::NaturalTimeLinearVesting(linear) => linear.set_claimed_token_amount(amount),
            Vesting::TimeCliffVesting(cliff) => cliff.set_claimed_token_amount(amount),
        }
    }
}

impl Beneficiary for Vesting {
    fn get_beneficiary(&self) -> (account: AccountId) {
        match self {
            Vesting::NaturalTimeLinearVesting(linear) => linear.get_beneficiary(),
            Vesting::TimeCliffVesting(cliff) => cliff.get_beneficiary(),
        }
    }

    fn set_beneficiary(&mut self, account: AccountId) {
        match self {
            Vesting::NaturalTimeLinearVesting(linear) => linear.set_beneficiary(account),
            Vesting::TimeCliffVesting(cliff) => cliff.set_beneficiary(account),
        }
    }
}

impl VestingAmount for Vesting {
    fn get_unreleased_amount(&self, now: SecondTimeStamp) -> (amount: Balance) {
        match self {
            Vesting::NaturalTimeLinearVesting(linear) => {
                linear.get_unreleased_amount(now)
            },
            Vesting::TimeCliffVesting(cliff) => {
                cliff.get_unreleased_amount(now)
            },
        }
    }
}

impl Claimable for Vesting {

}

impl Finish for Vesting {
    fn is_release_finish(&self, now: SecondTimeStamp) -> (finished: bool) {
        match self {
            Vesting::NaturalTimeLinearVesting(linear) => linear.is_release_finish(now),
            Vesting::TimeCliffVesting(cliff) => cliff.is_release_finish(now),
        }
    }
}

/// Adds up the amounts of `checkpoints`, unless the sum leaves the range of
/// a balance.
pub fn sum_checkpoints(checkpoints: &Vec<CliffVestingCheckpoint>) -> (sum: Option<Balance>)
    ensures
        match sum {
            Some(total) => total == checkpoints_total(checkpoints@),
            None => checkpoints_total(checkpoints@) > u128::MAX,
        },
{
    let mut total: Balance = 0;
    let mut i: usize = 0;
    while i < checkpoints.len()
        invariant
            i <= checkpoints.len(),
            total == checkpoints_total(checkpoints@.take(i as int)),
        decreases checkpoints.len() - i,
    {
        proof {
            let next = checkpoints@.take(i + 1);
            assert(next.drop_last() =~= checkpoints@.take(i as int));
            lemma_checkpoints_total_prefix(checkpoints@, i + 1);
        }
        match total.checked_add(checkpoints[i].amount) {
            Some(next_total) => {
                total = next_total;
            },
            None => {
                return None;
            },
        }
        i += 1;
    }
    proof {
        assert(checkpoints@.take(i as int) =~= checkpoints@);
    }
    Some(total)
}

impl Vesting {
    /// Whether the vesting is well formed: no more is claimed than its total
    /// amount, a linear one ends after it starts, and the checkpoints of a
    /// cliff one add up to its total amount.
    pub fn is_well_formed(&self) -> (valid: bool)
        ensures
            valid == self@.wf(),
    {
        match self {
            Vesting::NaturalTimeLinearVesting(linear) => {
                linear.vesting_token_info.claimed_token_amount
                    <= linear.vesting_token_info.total_vesting_amount && linear.start_time
                    < linear.end_time
            },
            Vesting::TimeCliffVesting(cliff) => {
                if cliff.vesting_token_info.claimed_token_amount
                    > cliff.vesting_token_info.total_vesting_amount {
                    return false;
                }
                match sum_checkpoints(&cliff.time_cliff_list) {
                    Some(sum) => sum == cliff.vesting_token_info.total_vesting_amount,
                    None => false,
                }
            },
        }
    }

    pub fn get_vesting_id(&self) -> (id: VestingId)
        ensures
            id == self@.id,
    {
        match self {
            Vesting::NaturalTimeLinearVesting(linear) => linear.id,
            Vesting::TimeCliffVesting(cliff) => cliff.id,
        }
    }

    /// Makes the vesting that `param` states, under the number `id`, created
    /// at the time `now`.
    ///
    /// A linear vesting must end after it starts. The total amount of a cliff
    /// vesting is the sum of its checkpoints, which must fit in a balance.
    pub fn new(id: VestingId, param: VestingCreateParam, now: SecondTimeStamp) -> (made: Result<
        Self,
        VestingError,
    >)
        ensures
            param.valid() ==> made is Ok && made->Ok_0@ == param.model(id, now) && made->Ok_0@.wf(),
            !param.valid() ==> made == Err::<Self, VestingError>(VestingError::InvalidSchedule),
    {
        match param {
            VestingCreateParam::LinearVesting {
                beneficiary,
                start_time,
                end_time,
                total_vesting_amount,
            } => {
                if start_time >= end_time {
                    return Err(VestingError::InvalidSchedule);
                }
                Ok(
                    Vesting::NaturalTimeLinearVesting(
                        NaturalTimeLinearVesting {
                            id,
                            beneficiary,
                            start_time,
                            end_time,
                            vesting_token_info: VestingTokenInfo {
                                claimed_token_amount: 0,
                                total_vesting_amount,
                            },
                            is_frozen: false,
                            create_time: now,
                        },
                    ),
                )
            },
            VestingCreateParam::CliffVesting { beneficiary, time_cliff_list } => {
                let total_amount: Balance = match sum_checkpoints(&time_cliff_list) {
                    Some(sum) => sum,
                    None => {
                        return Err(VestingError::InvalidSchedule);
                    },
                };
                Ok(
                    Vesting::TimeCliffVesting(
                        TimeCliffVesting {
                            id,
                            beneficiary,
                            time_cliff_list,
                            vesting_token_info: VestingTokenInfo {
                                claimed_token_amount: 0,
                                total_vesting_amount: total_amount,
                            },
                            is_frozen: false,
                            create_time: now,
                        },
                    ),
                )
            },
        }
    }
}

} // verus!
