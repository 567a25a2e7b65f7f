//! The operations of the contract, by who may ask for them.
//!
//! Every operation is told who calls and, where time matters, what time it
//! is. It says what follows by the state functions of [`ContractModel`].

use crate::state::{claimable_total, gives, named_account, ContractModel};
use crate::types::{AccountId, Balance, SecondTimeStamp, VestingError, VestingId};
use crate::vesting::cliff::CliffVestingCheckpoint;
use crate::vesting::{Vesting, VestingCreateParam};
use vstd::prelude::*;

verus! {

/// What only the owner may do.
pub trait OwnerAction: View<V = ContractModel> {
    /// Creates a vesting that releases `total_vesting_amount` evenly from
    /// `start_time` to `end_time`, and returns its number.
    fn create_linear_vesting(
        &mut self,
        caller: &AccountId,
        beneficiary: AccountId,
        start_time: SecondTimeStamp,
        end_time: SecondTimeStamp,
        total_vesting_amount: Balance,
        now: SecondTimeStamp,
    ) -> (created: Result<VestingId, VestingError>)
        requires
            old(self)@.wf(),
        ensures
            created == old(self)@.create_result(
                caller@,
                (VestingCreateParam::LinearVesting {
                    beneficiary,
                    start_time,
                    end_time,
                    total_vesting_amount,
                }),
            ),
            final(self)@ == old(self)@.after_create(
                caller@,
                (VestingCreateParam::LinearVesting {
                    beneficiary,
                    start_time,
                    end_time,
                    total_vesting_amount,
                }),
                now,
            ),
            final(self)@.wf(),
    ;

    /// Creates a vesting that releases the amount of each checkpoint at its
    /// time, and returns its number.
    fn create_cliff_vesting(
        &mut self,
        caller: &AccountId,
        beneficiary: AccountId,
        time_cliff_list: Vec<CliffVestingCheckpoint>,
        now: SecondTimeStamp,
    ) -> (created: Result<VestingId, VestingError>)
        requires
            old(self)@.wf(),
        ensures
            created == old(self)@.create_result(
                caller@,
                (VestingCreateParam::CliffVesting { beneficiary, time_cliff_list }),
            ),
            final(self)@ == old(self)@.after_create(
                caller@,
                (VestingCreateParam::CliffVesting { beneficiary, time_cliff_list }),
                now,
            ),
            final(self)@.wf(),
    ;

    /// Bars the vesting from claims. The amounts stay as they are.
    fn freeze_vesting(&mut self, caller: &AccountId, vesting_id: VestingId) -> (done: Result<
        (),
        VestingError,
    >)
        requires
            old(self)@.wf(),
        ensures
            done == old(self)@.set_frozen_result(caller@, vesting_id),
            final(self)@ == old(self)@.after_set_frozen(caller@, vesting_id, true),
            final(self)@.wf(),
    ;

    /// Opens the vesting for claims again. The amounts stay as they are.
    fn unfreeze_vesting(&mut self, caller: &AccountId, vesting_id: VestingId) -> (done: Result<
        (),
        VestingError,
    >)
        requires
            old(self)@.wf(),
        ensures
            done == old(self)@.set_frozen_result(caller@, vesting_id),
            final(self)@ == old(self)@.after_set_frozen(caller@, vesting_id, false),
            final(self)@.wf(),
    ;

    /// Takes the vesting out of the registry for good. Whatever was not
    /// claimed from it is forfeited: nothing is sent, and nothing is owed.
    fn terminate_vesting(&mut self, caller: &AccountId, vesting_id: VestingId) -> (done: Result<
        (),
        VestingError,
    >)
        requires
            old(self)@.wf(),
        ensures
            done == old(self)@.terminate_result(caller@),
            final(self)@ == old(self)@.after_terminate(caller@, vesting_id),
            final(self)@.wf(),
    ;
}

/// What the beneficiary of a vesting may do.
///
/// A claim takes two calls. The first says whose standing with the token
/// has to be looked up. The second, `claim_callback` or `claim_all_callback`
/// of the contract, is given what was found and goes on with the claim.
pub trait BeneficiaryAction: View<V = ContractModel> {
    /// Hands the vesting to another beneficiary. The owner may do so too.
    /// The amounts stay as they are.
    fn change_beneficiary(
        &mut self,
        caller: &AccountId,
        vesting_id: VestingId,
        new_beneficiary: AccountId,
    ) -> (done: Result<(), VestingError>)
        requires
            old(self)@.wf(),
        ensures
            done == old(self)@.change_beneficiary_result(caller@, vesting_id),
            final(self)@ == old(self)@.after_change_beneficiary(
                caller@,
                vesting_id,
                new_beneficiary@,
            ),
            final(self)@.wf(),
    ;

    /// Begins a claim from the vesting `vesting_id`: returns its beneficiary,
    /// whose standing with the token has to be looked up.
    fn claim(&self, vesting_id: VestingId) -> (beneficiary: Result<AccountId, VestingError>)
        requires
            self@.wf(),
        ensures
            gives(beneficiary, self@.claim_query(vesting_id)),
    ;

    /// Begins a claim from all vestings of `beneficiary`, or of the caller
    /// where none is named: returns the account whose standing with the token
    /// has to be looked up.
    fn claim_all(&self, caller: &AccountId, beneficiary: Option<AccountId>) -> (account: AccountId)
        ensures
            account@ == match beneficiary {
                Some(named) => named@,
                None => caller@,
            },
    ;
}

/// What anyone may ask of the contract. Nothing changes by asking.
pub trait Viewer: View<V = ContractModel> {
    /// The token that the contract holds for its vestings.
    fn get_vesting_token_id(&self) -> (token_id: AccountId)
        ensures
            token_id@ == self@.token_id,
    ;

    /// A page of the vestings of `beneficiary`, or of all vestings where
    /// none is named, in the order in which they were created: at most
    /// `limit` of them, after leaving out the first `from_index`.
    fn get_vesting(&self, from_index: u32, limit: u32, beneficiary: Option<AccountId>) -> (page:
        Vec<Vesting>)
        requires
            self@.wf(),
        ensures
            page@.map_values(|vesting: Vesting| vesting@) == self@.page(
                from_index,
                limit,
                named_account(beneficiary),
            ),
    ;

    /// The vesting with the number `vesting_id`.
    fn get_vesting_by_id(&self, vesting_id: VestingId) -> (found: Result<Vesting, VestingError>)
        requires
            self@.wf(),
        ensures
            gives(found, self@.vesting_result(vesting_id)),
    ;

    /// What can be claimed at `now` from the vesting `vesting_id`. It is
    /// rejected where more is claimed from the vesting than is released at
    /// `now`.
    fn get_claimable_amount(&self, vesting_id: VestingId, now: SecondTimeStamp) -> (amount: Result<
        Balance,
        VestingError,
    >)
        requires
            self@.wf(),
        ensures
            amount == self@.claimable_result(vesting_id, now),
    ;

    /// The sum of what can be claimed at `now` from the vestings of
    /// `beneficiary`, or from all vestings where none is named.
    fn get_all_claimable_amount(&self, beneficiary: Option<AccountId>, now: SecondTimeStamp) -> (
        amount: Result<Balance, VestingError>)
        requires
            self@.wf(),
        ensures
            amount == claimable_total(self@.vestings, named_account(beneficiary), now),
    ;
}

} // verus!
