//! What holds of the contract in every state, proved over its model.

use crate::preservation::{
    lemma_change_beneficiary_wf, lemma_claim_all_accepted, lemma_claim_all_wf, lemma_claim_wf,
    lemma_create_wf, lemma_resolve_wf, lemma_set_frozen_wf, lemma_set_owner_wf,
    lemma_staying_vestings, lemma_terminate_wf, lemma_vesting_place, lemma_withdraw_legacy_wf,
};
use crate::state::{
    claim_all_total, claimable_total, staying_vestings, ContractModel, Operation,
    TransferRequestModel,
};
use crate::types::VestingError;
use crate::vesting::model::{lemma_claim_keeps_wf, lemma_released_bounded, VestingModel};
use crate::vesting::VestingCreateParam;
use vstd::prelude::*;

verus! {

/// Whatever the operation, and whether it is accepted or not, a well formed
/// contract stays well formed, and the last number handed out never goes
/// back.
pub proof fn law_step_keeps_wf(state: ContractModel, operation: Operation)
    requires
        state.wf(),
    ensures
        state.step(operation).wf(),
        state.uuid <= state.step(operation).uuid,
{
    match operation {
        Operation::SetOwner { caller, owner } => lemma_set_owner_wf(state, caller, owner),
        Operation::Create { caller, param, now } => lemma_create_wf(state, caller, param, now),
        Operation::SetFrozen { caller, id, frozen } => lemma_set_frozen_wf(
            state,
            caller,
            id,
            frozen,
        ),
        Operation::Terminate { caller, id } => lemma_terminate_wf(state, caller, id),
        Operation::ChangeBeneficiary { caller, id, beneficiary } => lemma_change_beneficiary_wf(
            state,
            caller,
            id,
            beneficiary,
        ),
        Operation::Claim { id, amount, ft_balance, registered, now } => lemma_claim_wf(
            state,
            id,
            amount,
            ft_balance,
            registered,
            now,
        ),
        Operation::ClaimAll { beneficiary, ft_balance, registered, now } => lemma_claim_all_wf(
            state,
            beneficiary,
            ft_balance,
            registered,
            now,
        ),
        Operation::Resolve { transfer_id, is_success, now } => lemma_resolve_wf(
            state,
            transfer_id,
            is_success,
            now,
        ),
        Operation::WithdrawLegacy { account } => lemma_withdraw_legacy_wf(state, account),
    }
}

/// The same holds after any run of operations.
pub proof fn law_run_keeps_wf(state: ContractModel, operations: Seq<Operation>)
    requires
        state.wf(),
    ensures
        state.run(operations).wf(),
        state.uuid <= state.run(operations).uuid,
    decreases operations.len(),
{
    if operations.len() > 0 {
        law_run_keeps_wf(state, operations.drop_last());
        law_step_keeps_wf(state.run(operations.drop_last()), operations.last());
    }
}

/// The numbers of vestings grow strictly and are never used again.
///
/// A vesting that is created gets a number above the numbers of all vestings
/// that there are, and above the last number that was handed out. After any
/// run of operations, removals among them, the next vesting that is created
/// gets a number that is larger still, and so does every vesting that is then
/// in the registry have a number below it.
pub proof fn law_vesting_ids_never_reused(
    state: ContractModel,
    first_caller: Seq<char>,
    first_param: VestingCreateParam,
    first_now: u64,
    operations: Seq<Operation>,
    second_caller: Seq<char>,
    second_param: VestingCreateParam,
)
    requires
        state.wf(),
        state.create_result(first_caller, first_param) is Ok,
        state.after_create(first_caller, first_param, first_now).run(operations).create_result(
            second_caller,
            second_param,
        ) is Ok,
    ensures
        ({
            let first = state.create_result(first_caller, first_param)->Ok_0;
            let later = state.after_create(first_caller, first_param, first_now).run(operations);
            let second = later.create_result(second_caller, second_param)->Ok_0;
            &&& state.uuid < first < second
            &&& forall|i: int|
                0 <= i < state.vestings.len() ==> (#[trigger] state.vestings[i]).id < first
            &&& forall|i: int|
                0 <= i < later.vestings.len() ==> (#[trigger] later.vestings[i]).id < second
        }),
{
    let created = state.after_create(first_caller, first_param, first_now);
    lemma_create_wf(state, first_caller, first_param, first_now);
    law_run_keeps_wf(created, operations);
}

/// No operation brings back a number that was handed out and is not, or no
/// longer, the number of a vesting.
pub proof fn lemma_step_brings_nothing_back(state: ContractModel, operation: Operation, id: u64)
    requires
        state.wf(),
        id <= state.uuid,
        !state.has_vesting(id),
    ensures
        !state.step(operation).has_vesting(id),
{
    let after = state.step(operation);
    if after.has_vesting(id) {
        let a = after.vesting_index(id);
        assert(after.vestings[a].id == id);
        match operation {
            Operation::SetOwner { .. } => {},
            Operation::Create { .. } => {
                if a < state.vestings.len() {
                    assert(state.vestings[a].id == id);
                }
            },
            Operation::SetFrozen { .. } => {
                assert(state.vestings[a].id == id);
            },
            Operation::Terminate { caller, id: removed } => {
                if after != state {
                    let a0 = if a < state.vesting_index(removed) {
                        a
                    } else {
                        a + 1
                    };
                    assert(state.vestings[a0].id == id);
                }
            },
            Operation::ChangeBeneficiary { .. } => {
                assert(state.vestings[a].id == id);
            },
            Operation::Claim { .. } => {
                assert(state.vestings[a].id == id);
            },
            Operation::ClaimAll { .. } => {
                assert(state.vestings[a].id == id);
            },
            Operation::Resolve { transfer_id, is_success, now } => {
                if after.vestings != state.vestings {
                    let origins = state.pending_transfer(transfer_id).origin_vestings;
                    lemma_staying_vestings(state.vestings, origins, now, state.uuid);
                    let j = choose|j: int|
                        0 <= j < state.vestings.len() && (#[trigger] state.vestings[j])
                            == staying_vestings(state.vestings, origins, now)[a];
                    assert(state.vestings[j].id == id);
                }
            },
            Operation::WithdrawLegacy { .. } => {},
        }
    }
}

/// A vesting that has left the registry never comes back.
///
/// Whether it was completed or terminated, after any run of operations no
/// vesting has its number. The same holds of every number that was handed out
/// to a transfer.
pub proof fn law_removed_vesting_stays_removed(
    state: ContractModel,
    operations: Seq<Operation>,
    id: u64,
)
    requires
        state.wf(),
        id <= state.uuid,
        !state.has_vesting(id),
    ensures
        !state.run(operations).has_vesting(id),
    decreases operations.len(),
{
    if operations.len() > 0 {
        law_removed_vesting_stays_removed(state, operations.drop_last(), id);
        law_run_keeps_wf(state, operations.drop_last());
        lemma_step_brings_nothing_back(state.run(operations.drop_last()), operations.last(), id);
    }
}

/// A vesting that the owner has frozen rejects every claim of a registered
/// beneficiary, and its amounts are as they were. Once the owner has
/// unfrozen it, it is the vesting that it was before, and a claim has the
/// outcome it would have had without the freeze.
pub proof fn law_frozen_vesting_rejects_claims(
    state: ContractModel,
    id: u64,
    amount: Option<u128>,
    ft_balance: u128,
    now: u64,
)
    requires
        state.wf(),
        state.has_vesting(id),
    ensures
        ({
            let frozen = state.after_set_frozen(state.owner, id, true);
            let unfrozen = frozen.after_set_frozen(state.owner, id, false);
            &&& frozen.has_vesting(id)
            &&& frozen.vesting(id) == state.vesting(id).with_frozen(true)
            &&& frozen.claim_result(id, amount, ft_balance, true, now) == Err::<
                TransferRequestModel,
                VestingError,
            >(VestingError::FrozenVesting)
            &&& frozen.after_claim(id, amount, ft_balance, true, now) == frozen
            &&& unfrozen.has_vesting(id)
            &&& unfrozen.vesting(id) == state.vesting(id).with_frozen(false)
            &&& unfrozen.vesting(id).claimed_amount == state.vesting(id).claimed_amount
            &&& !state.vesting(id).is_frozen ==> unfrozen == state
        }),
{
    let i = state.vesting_index(id);
    let frozen = state.after_set_frozen(state.owner, id, true);
    let unfrozen = frozen.after_set_frozen(state.owner, id, false);
    lemma_vesting_place(unfrozen, i);
}

/// A transfer that fails is made up for, once.
///
/// When a pending transfer is reported as failed, exactly its amount is
/// added to what is owed to its receiver, nothing changes for any other
/// account, the vestings stay as they are, with what was claimed from them,
/// and a second report of the same transfer is rejected. When the receiver
/// then has the debt paid out, nothing is owed to it any more, and a transfer
/// of the whole debt is handed out.
///
/// This holds unless the debt leaves the range of a balance, or the numbers
/// are used up.
pub proof fn law_failed_transfer_is_owed(state: ContractModel, transfer_id: u64, now: u64)
    requires
        state.wf(),
        state.resolve_result(transfer_id, false, now) is Ok,
        state.uuid < u64::MAX,
    ensures
        ({
            let transfer = state.pending_transfer(transfer_id);
            let failed = state.after_resolve(transfer_id, false, now);
            let paid = failed.after_withdraw_legacy(transfer.receiver);
            &&& failed.legacy_balance(transfer.receiver) == state.legacy_balance(transfer.receiver)
                + transfer.amount
            &&& forall|other: Seq<char>|
                other != transfer.receiver ==> #[trigger] failed.legacy_balance(other)
                    == state.legacy_balance(other)
            &&& failed.vestings == state.vestings
            &&& failed.resolve_result(transfer_id, false, now) == Err::<Seq<u64>, VestingError>(
                VestingError::NotFound,
            )
            &&& failed.resolve_result(transfer_id, true, now) == Err::<Seq<u64>, VestingError>(
                VestingError::NotFound,
            )
            &&& failed.withdraw_legacy_result(transfer.receiver) == Ok::<
                TransferRequestModel,
                VestingError,
            >(
                failed.transfer_request(
                    transfer.receiver,
                    failed.legacy_balance(transfer.receiver),
                ),
            )
            &&& paid.legacy_balance(transfer.receiver) == 0
            &&& paid.vestings == state.vestings
        }),
{
    let failed = state.after_resolve(transfer_id, false, now);
}

/// A claim for more than is claimable is rejected and changes nothing; a
/// claim for exactly what is claimable is granted and leaves nothing
/// claimable.
///
/// This is said of a vesting that is not frozen and from which no more is
/// claimed than is released, and of a registered beneficiary. For the claim
/// to be granted, the contract must hold the amount, a number must be left for
/// the transfer, and the amount must not be nothing.
pub proof fn law_claim_exactly_what_is_claimable(
    state: ContractModel,
    id: u64,
    requested: u128,
    ft_balance: u128,
    now: u64,
)
    requires
        state.wf(),
        state.has_vesting(id),
        !state.vesting(id).is_frozen,
        state.vesting(id).claimed_amount <= state.vesting(id).released_amount(now),
    ensures
        requested > state.vesting(id).claimable_amount(now) ==> {
            &&& state.claim_result(id, Some(requested), ft_balance, true, now) == Err::<
                TransferRequestModel,
                VestingError,
            >(VestingError::InsufficientClaimable)
            &&& state.after_claim(id, Some(requested), ft_balance, true, now) == state
        },
        requested == state.vesting(id).claimable_amount(now) && 0 < requested <= ft_balance
            && state.uuid < u64::MAX ==> {
            let after = state.after_claim(id, Some(requested), ft_balance, true, now);
            &&& state.claim_result(id, Some(requested), ft_balance, true, now) == Ok::<
                TransferRequestModel,
                VestingError,
            >(state.transfer_request(state.vesting(id).beneficiary, requested))
            &&& after.has_vesting(id)
            &&& after.vesting(id).claimed_amount == state.vesting(id).claimed_amount + requested
            &&& after.claimable_result(id, now) == Ok::<u128, VestingError>(0)
        },
{
    let i = state.vesting_index(id);
    let vesting = state.vesting(id);
    lemma_claim_keeps_wf(vesting, Some(requested), now);
    if requested == vesting.claimable_amount(now) && 0 < requested <= ft_balance && state.uuid
        < u64::MAX {
        let after = state.after_claim(id, Some(requested), ft_balance, true, now);
        lemma_vesting_place(after, i);
    }
}

/// Where claiming everything is accepted, its sum is the sum of what is
/// claimable from the vestings of the beneficiary.
pub proof fn lemma_claim_all_total_is_claimable_total(
    vestings: Seq<VestingModel>,
    beneficiary: Seq<char>,
    now: u64,
)
    requires
        forall|i: int| 0 <= i < vestings.len() ==> (#[trigger] vestings[i]).wf(),
        claim_all_total(vestings, beneficiary, now) is Ok,
    ensures
        claimable_total(vestings, Some(beneficiary), now) == claim_all_total(
            vestings,
            beneficiary,
            now,
        ),
    decreases vestings.len(),
{
    if vestings.len() > 0 {
        lemma_claim_all_total_is_claimable_total(vestings.drop_last(), beneficiary, now);
        lemma_released_bounded(vestings.last(), now);
    }
}

/// Claiming everything sends one sum and counts each part as claimed.
///
/// Where the claim is accepted and something is claimable, the amount of
/// the one transfer that becomes pending is the sum of what was claimable from
/// the vestings of the beneficiary. Each of these vestings then has what was
/// claimable from it added to what is claimed, and nothing claimable left;
/// every other vesting is as it was.
pub proof fn law_claim_all_sends_the_sum(
    state: ContractModel,
    beneficiary: Seq<char>,
    ft_balance: u128,
    now: u64,
)
    requires
        state.wf(),
        state.claim_all_result(beneficiary, ft_balance, true, now) matches Ok(Some(_)),
    ensures
        ({
            let request = state.claim_all_result(beneficiary, ft_balance, true, now)->Ok_0->Some_0;
            let after = state.after_claim_all(beneficiary, ft_balance, true, now);
            &&& claimable_total(state.vestings, Some(beneficiary), now) == Ok::<
                u128,
                VestingError,
            >(request.amount)
            &&& request.receiver == beneficiary
            &&& after.pending.len() == state.pending.len() + 1
            &&& after.pending.last().amount == request.amount
            &&& after.pending.last().receiver == beneficiary
            &&& after.pending.last().transfer_id == request.transfer_id
            &&& after.pending.drop_last() == state.pending
            &&& after.vestings.len() == state.vestings.len()
            &&& forall|i: int|
                0 <= i < state.vestings.len() && (#[trigger] state.vestings[i]).beneficiary
                    == beneficiary ==> {
                    &&& after.vestings[i] == state.vestings[i].with_claimed(
                        (state.vestings[i].claimed_amount + state.vestings[i].claimable_amount(
                            now,
                        )) as u128,
                    )
                    &&& after.vestings[i].claimed_amount == state.vestings[i].claimed_amount
                        + state.vestings[i].claimable_amount(now)
                    &&& after.vestings[i].claimable_amount(now) == 0
                }
            &&& forall|i: int|
                0 <= i < state.vestings.len() && (#[trigger] state.vestings[i]).beneficiary
                    != beneficiary ==> after.vestings[i] == state.vestings[i]
        }),
{
    let after = state.after_claim_all(beneficiary, ft_balance, true, now);
    lemma_claim_all_total_is_claimable_total(state.vestings, beneficiary, now);
    assert forall|i: int|
        0 <= i < state.vestings.len() && (#[trigger] state.vestings[i]).beneficiary
            == beneficiary implies {
        &&& after.vestings[i] == state.vestings[i].with_claimed(
            (state.vestings[i].claimed_amount + state.vestings[i].claimable_amount(now)) as u128,
        )
        &&& after.vestings[i].claimed_amount == state.vestings[i].claimed_amount
            + state.vestings[i].claimable_amount(now)
        &&& after.vestings[i].claimable_amount(now) == 0
    } by {
        lemma_claim_all_accepted(state.vestings, beneficiary, now, i);
        lemma_released_bounded(state.vestings[i], now);
    }
}

} // verus!
