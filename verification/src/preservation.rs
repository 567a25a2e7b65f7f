//! Every operation keeps the contract well formed.
//!
//! One lemma for each operation, over the model of the contract, and the
//! facts about the parts of the model that they need.

use crate::state::{
    claim_all_total, claim_all_vestings, claimable_total, leaves_on_success, page_of,
    staying_vestings, ContractModel,
};
use crate::types::VestingError;
use crate::vesting::model::{
    lemma_checkpoints_after_bounded, lemma_claim_keeps_wf, VestingModel,
};
use crate::vesting::VestingCreateParam;
use vstd::prelude::*;

verus! {

/// Replacing the owner keeps the contract well formed.
pub proof fn lemma_set_owner_wf(state: ContractModel, caller: Seq<char>, owner: Seq<char>)
    requires
        state.wf(),
    ensures
        state.after_set_owner(caller, owner).wf(),
{
}

/// The vesting that valid statements make is well formed.
pub proof fn lemma_param_model_wf(param: VestingCreateParam, id: u64, now: u64)
    requires
        param.valid(),
    ensures
        param.model(id, now).wf(),
{
    match param {
        VestingCreateParam::LinearVesting { .. } => {},
        VestingCreateParam::CliffVesting { time_cliff_list, .. } => {
            lemma_checkpoints_after_bounded(time_cliff_list@, 0);
        },
    }
}

/// Creating a vesting keeps the contract well formed.
pub proof fn lemma_create_wf(
    state: ContractModel,
    caller: Seq<char>,
    param: VestingCreateParam,
    now: u64,
)
    requires
        state.wf(),
    ensures
        state.after_create(caller, param, now).wf(),
{
    if state.create_result(caller, param) is Ok {
        lemma_param_model_wf(param, state.next_id(), now);
    }
}

/// In a well formed contract a vesting is found by its number in one place
/// only.
pub proof fn lemma_vesting_place(state: ContractModel, i: int)
    requires
        state.wf(),
        0 <= i < state.vestings.len(),
    ensures
        state.has_vesting(state.vestings[i].id),
        state.vesting_index(state.vestings[i].id) == i,
        state.vesting(state.vestings[i].id) == state.vestings[i],
{
}

/// Freezing and unfreezing keep the contract well formed.
pub proof fn lemma_set_frozen_wf(state: ContractModel, caller: Seq<char>, id: u64, frozen: bool)
    requires
        state.wf(),
    ensures
        state.after_set_frozen(caller, id, frozen).wf(),
{
}

/// Terminating keeps the contract well formed.
pub proof fn lemma_terminate_wf(state: ContractModel, caller: Seq<char>, id: u64)
    requires
        state.wf(),
    ensures
        state.after_terminate(caller, id).wf(),
{
}

/// Replacing the beneficiary of a vesting keeps the contract well formed.
pub proof fn lemma_change_beneficiary_wf(
    state: ContractModel,
    caller: Seq<char>,
    id: u64,
    beneficiary: Seq<char>,
)
    requires
        state.wf(),
    ensures
        state.after_change_beneficiary(caller, id, beneficiary).wf(),
{
}

/// A claim keeps the contract well formed.
pub proof fn lemma_claim_wf(
    state: ContractModel,
    id: u64,
    amount: Option<u128>,
    ft_balance: u128,
    registered: bool,
    now: u64,
)
    requires
        state.wf(),
    ensures
        state.after_claim(id, amount, ft_balance, registered, now).wf(),
{
    match state.claim_result(id, amount, ft_balance, registered, now) {
        Ok(request) => {
            lemma_claim_keeps_wf(state.vesting(id), amount, now);
        },
        Err(_) => {},
    }
}

/// Once claiming everything is rejected for the first vestings, it is
/// rejected for all of them, for the same reason.
pub proof fn lemma_claim_all_rejected(
    vestings: Seq<VestingModel>,
    beneficiary: Seq<char>,
    now: u64,
    n: int,
)
    requires
        0 <= n <= vestings.len(),
        claim_all_total(vestings.take(n), beneficiary, now) is Err,
    ensures
        claim_all_total(vestings, beneficiary, now) == claim_all_total(
            vestings.take(n),
            beneficiary,
            now,
        ),
    decreases vestings.len() - n,
{
    if n == vestings.len() {
        assert(vestings.take(n) =~= vestings);
    } else {
        assert(vestings.take(n + 1).drop_last() =~= vestings.take(n));
        lemma_claim_all_rejected(vestings, beneficiary, now, n + 1);
    }
}

/// Where claiming everything is accepted, each vesting of the beneficiary
/// grants what is claimable from it.
pub proof fn lemma_claim_all_accepted(
    vestings: Seq<VestingModel>,
    beneficiary: Seq<char>,
    now: u64,
    i: int,
)
    requires
        claim_all_total(vestings, beneficiary, now) is Ok,
        0 <= i < vestings.len(),
        vestings[i].beneficiary == beneficiary,
    ensures
        vestings[i].claim_outcome(None, now) == Ok::<u128, VestingError>(
            vestings[i].claimable_amount(now) as u128,
        ),
        vestings[i].claimable_amount(now) >= 0,
    decreases vestings.len(),
{
    if i < vestings.len() - 1 {
        lemma_claim_all_accepted(vestings.drop_last(), beneficiary, now, i);
    }
}

/// Claiming everything keeps the contract well formed.
pub proof fn lemma_claim_all_wf(
    state: ContractModel,
    beneficiary: Seq<char>,
    ft_balance: u128,
    registered: bool,
    now: u64,
)
    requires
        state.wf(),
    ensures
        state.after_claim_all(beneficiary, ft_balance, registered, now).wf(),
{
    match state.claim_all_result(beneficiary, ft_balance, registered, now) {
        Ok(Some(request)) => {
            let claimed = ContractModel {
                vestings: claim_all_vestings(state.vestings, beneficiary, now),
                ..state
            };
            assert forall|a: int| 0 <= a < claimed.vestings.len() implies (
            #[trigger] claimed.vestings[a]).wf() && claimed.vestings[a].id
                == state.vestings[a].id by {
                lemma_claim_keeps_wf(state.vestings[a], None, now);
            }
        },
        _ => {},
    }
}

/// The vestings that stay after a successful transfer are vestings that were
/// there, in the order in which they were there.
pub proof fn lemma_staying_vestings(
    vestings: Seq<VestingModel>,
    origins: Seq<u64>,
    now: u64,
    uuid: u64,
)
    requires
        forall|i: int| 0 <= i < vestings.len() ==> (#[trigger] vestings[i]).wf(),
        forall|i: int| 0 <= i < vestings.len() ==> (#[trigger] vestings[i]).id <= uuid,
        forall|i: int, j: int|
            0 <= i < j < vestings.len() ==> (#[trigger] vestings[i]).id < (
            #[trigger] vestings[j]).id,
    ensures
        staying_vestings(vestings, origins, now).len() <= vestings.len(),
        forall|a: int|
            0 <= a < staying_vestings(vestings, origins, now).len() ==> {
                &&& (#[trigger] staying_vestings(vestings, origins, now)[a]).wf()
                &&& staying_vestings(vestings, origins, now)[a].id <= uuid
                &&& !leaves_on_success(staying_vestings(vestings, origins, now)[a], origins, now)
                &&& exists|j: int|
                    0 <= j < vestings.len() && (#[trigger] vestings[j]) == staying_vestings(
                        vestings,
                        origins,
                        now,
                    )[a]
            },
        forall|a: int, b: int|
            0 <= a < b < staying_vestings(vestings, origins, now).len() ==> (
            #[trigger] staying_vestings(vestings, origins, now)[a]).id < (
            #[trigger] staying_vestings(vestings, origins, now)[b]).id,
    decreases vestings.len(),
{
    if vestings.len() > 0 {
        let front = vestings.drop_last();
        lemma_staying_vestings(front, origins, now, uuid);
    }
}

/// Taking in the outcome of a transfer keeps the contract well formed.
pub proof fn lemma_resolve_wf(state: ContractModel, transfer_id: u64, is_success: bool, now: u64)
    requires
        state.wf(),
    ensures
        state.after_resolve(transfer_id, is_success, now).wf(),
{
    if state.resolve_result(transfer_id, is_success, now) is Ok {
        let transfer = state.pending_transfer(transfer_id);
        if is_success {
            lemma_staying_vestings(state.vestings, transfer.origin_vestings, now, state.uuid);
        }
    }
}

/// Paying out what is owed keeps the contract well formed.
pub proof fn lemma_withdraw_legacy_wf(state: ContractModel, account: Seq<char>)
    requires
        state.wf(),
    ensures
        state.after_withdraw_legacy(account).wf(),
{
}

/// Once the sum of what is claimable is rejected for the first vestings, it
/// is rejected for all of them.
pub proof fn lemma_claimable_total_rejected(
    vestings: Seq<VestingModel>,
    beneficiary: Option<Seq<char>>,
    now: u64,
    n: int,
)
    requires
        0 <= n <= vestings.len(),
        claimable_total(vestings.take(n), beneficiary, now) is Err,
    ensures
        claimable_total(vestings, beneficiary, now) == claimable_total(
            vestings.take(n),
            beneficiary,
            now,
        ),
    decreases vestings.len() - n,
{
    if n == vestings.len() {
        assert(vestings.take(n) =~= vestings);
    } else {
        assert(vestings.take(n + 1).drop_last() =~= vestings.take(n));
        lemma_claimable_total_rejected(vestings, beneficiary, now, n + 1);
    }
}

/// A page grows by a vesting that is added at the end exactly when the
/// vesting lies within the page.
pub proof fn lemma_page_push(
    all: Seq<VestingModel>,
    vesting: VestingModel,
    from_index: u32,
    limit: u32,
)
    ensures
        page_of(all.push(vesting), from_index, limit) == if from_index <= all.len() && all.len()
            < from_index + limit {
            page_of(all, from_index, limit).push(vesting)
        } else {
            page_of(all, from_index, limit)
        },
        page_of(all, from_index, limit).len() == if all.len() <= from_index {
            0
        } else if all.len() <= from_index + limit {
            all.len() - from_index
        } else {
            limit as int
        },
{
}

} // verus!
