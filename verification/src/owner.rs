//! What the owner does: creating, freezing and terminating vestings.

use crate::contract::TokenVestingContract;
use crate::interfaces::OwnerAction;
use crate::preservation::{lemma_create_wf, lemma_set_frozen_wf};
use crate::types::{AccountId, Balance, SecondTimeStamp, VestingError, VestingId};
use crate::vesting::cliff::CliffVestingCheckpoint;
use crate::vesting::traits::Frozen;
use crate::vesting::{Vesting, VestingCreateParam};
use vstd::prelude::*;

verus! {

impl TokenVestingContract {
    pub fn get_owner(&self) -> (owner: AccountId)
        ensures
            owner@ == self@.owner,
    {
        self.owner.clone()
    }

    /// Hands the contract to another owner. Only the owner may do so.
    pub fn set_owner(&mut self, caller: &AccountId, owner: AccountId) -> (done: Result<
        (),
        VestingError,
    >)
        requires
            old(self)@.wf(),
        ensures
            done == old(self)@.set_owner_result(caller@),
            final(self)@ == old(self)@.after_set_owner(caller@, owner@),
            final(self)@.wf(),
    {
        if !(*caller == self.owner) {
            return Err(VestingError::Unauthorized);
        }
        self.owner = owner;
        Ok(())
    }

    /// Creates the vesting that `param` states, for the owner only, and
    /// returns its number: the next one, which no vesting and no transfer
    /// ever had.
    pub fn internal_create_vesting(
        &mut self,
        caller: &AccountId,
        param: VestingCreateParam,
        now: SecondTimeStamp,
    ) -> (created: Result<VestingId, VestingError>)
        requires
            old(self)@.wf(),
        ensures
            created == old(self)@.create_result(caller@, param),
            final(self)@ == old(self)@.after_create(caller@, param, now),
            final(self)@.wf(),
    {
        proof {
            lemma_create_wf(self@, caller@, param, now);
        }
        if !(*caller == self.owner) {
            return Err(VestingError::Unauthorized);
        }
        if self.uuid == u64::MAX {
            return Err(VestingError::ArithmeticOverflow);
        }
        let id: VestingId = self.uuid + 1;
        let vesting = match Vesting::new(id, param, now) {
            Ok(vesting) => vesting,
            Err(error) => {
                return Err(error);
            },
        };
        self.uuid = id;
        self.vestings.push(vesting);
        Ok(id)
    }

    /// Freezes or unfreezes a vesting, for the owner only.
    fn set_frozen(&mut self, caller: &AccountId, vesting_id: VestingId, frozen: bool) -> (done:
        Result<(), VestingError>)
        requires
            old(self)@.wf(),
        ensures
            done == old(self)@.set_frozen_result(caller@, vesting_id),
            final(self)@ == old(self)@.after_set_frozen(caller@, vesting_id, frozen),
            final(self)@.wf(),
    {
        proof {
            lemma_set_frozen_wf(self@, caller@, vesting_id, frozen);
        }
        if !(*caller == self.owner) {
            return Err(VestingError::Unauthorized);
        }
        let i = match self.find_vesting(vesting_id) {
            Some(i) => i,
            None => {
                return Err(VestingError::NotFound);
            },
        };
        if frozen {
            self.vestings[i].freeze();
        } else {
            self.vestings[i].unfreeze();
        }
        Ok(())
    }
}

impl OwnerAction for TokenVestingContract {
    fn create_linear_vesting(
        &mut self,
        caller: &AccountId,
        beneficiary: AccountId,
        start_time: SecondTimeStamp,
        end_time: SecondTimeStamp,
        total_vesting_amount: Balance,
        now: SecondTimeStamp,
    ) -> (created: Result<VestingId, VestingError>) {
        self.internal_create_vesting(
            caller,
            VestingCreateParam::LinearVesting {
                beneficiary,
                start_time,
                end_time,
                total_vesting_amount,
            },
            now,
        )
    }

    fn create_cliff_vesting(
        &mut self,
        caller: &AccountId,
        beneficiary: AccountId,
        time_cliff_list: Vec<CliffVestingCheckpoint>,
        now: SecondTimeStamp,
    ) -> (created: Result<VestingId, VestingError>) {
        self.internal_create_vesting(
            caller,
            VestingCreateParam::CliffVesting { beneficiary, time_cliff_list },
            now,
        )
    }

    fn freeze_vesting(&mut self, caller: &AccountId, vesting_id: VestingId) -> (done: Result<
        (),
        VestingError,
    >) {
        self.set_frozen(caller, vesting_id, true)
    }

    fn unfreeze_vesting(&mut self, caller: &AccountId, vesting_id: VestingId) -> (done: Result<
        (),
        VestingError,
    >) {
        self.set_frozen(caller, vesting_id, false)
    }

    fn terminate_vesting(&mut self, caller: &AccountId, vesting_id: VestingId) -> (done: Result<
        (),
        VestingError,
    >) {
        if !(*caller == self.owner) {
            return Err(VestingError::Unauthorized);
        }
        self.internal_remove_vesting(vesting_id);
        Ok(())
    }
}

} // verus!
