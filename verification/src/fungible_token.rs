//! Token transfers: handing them out, and taking in their outcome.
//!
//! The contract counts a claim as made before the tokens are sent. The
//! transfer is handed to the caller as a [`TransferRequest`] and remembered
//! as pending. When the outcome is reported, a success takes vestings that
//! have nothing left to give out of the registry, and a failure is made up for
//! by owing the amount to the receiver. The claim itself is never undone.

use crate::contract::{PendingTransfer, TokenVestingContract, TransferRequest};
use crate::preservation::lemma_resolve_wf;
use crate::state::{
    gives, leaving_ids, staying_vestings, ContractModel, PendingTransferModel,
    TransferRequestModel,
};
use crate::types::{AccountId, Balance, SecondTimeStamp, TransferId, VestingError, VestingId};
use crate::vesting::traits::{Finish, VestingAmount, VestingTokenInfoTrait};
use crate::vesting::Vesting;
use vstd::prelude::*;

verus! {

impl TokenVestingContract {
    /// Hands out the transfer of `amount` to `receiver_id` under the number
    /// `transfer_id`, which was just handed out, and remembers it as pending.
    /// There is no transfer of nothing.
    pub(crate) fn internal_send_tokens(
        &mut self,
        receiver_id: &AccountId,
        amount: Balance,
        transfer_id: TransferId,
        origin_vestings: Vec<VestingId>,
    ) -> (request: TransferRequest)
        requires
            amount > 0,
        ensures
            final(self)@ == (ContractModel {
                pending: old(self)@.pending.push(
                    PendingTransferModel {
                        transfer_id,
                        receiver: receiver_id@,
                        amount,
                        origin_vestings: origin_vestings@,
                    },
                ),
                ..old(self)@
            }),
            request@ == (TransferRequestModel {
                transfer_id,
                receiver: receiver_id@,
                token_id: old(self)@.token_id,
                amount,
            }),
    {
        let pending = PendingTransfer {
            transfer_id,
            receiver_id: receiver_id.clone(),
            amount,
            origin_vestings,
        };
        self.pending_transfers.push(pending);
        TransferRequest {
            transfer_id,
            receiver_id: receiver_id.clone(),
            token_id: self.token_id.clone(),
            amount,
        }
    }

    /// Takes in the outcome of the transfer `transfer_id`, which is then no
    /// longer pending. The outcome of a transfer is taken in once: a second
    /// report finds no such transfer.
    ///
    /// After a success, the vestings that the tokens were claimed from leave
    /// the registry where all of their amount is released at `now` and
    /// claimed; their numbers are returned. After a failure, the amount is
    /// owed to the receiver, and the vestings stay as they are: what was
    /// claimed is not given back to them.
    pub fn ft_transfer_resolved(
        &mut self,
        transfer_id: TransferId,
        is_success: bool,
        now: SecondTimeStamp,
    ) -> (finished: Result<Vec<VestingId>, VestingError>)
        requires
            old(self)@.wf(),
        ensures
            gives(finished, old(self)@.resolve_result(transfer_id, is_success, now)),
            final(self)@ == old(self)@.after_resolve(transfer_id, is_success, now),
            final(self)@.wf(),
    {
        let ghost before = self@;
        proof {
            lemma_resolve_wf(before, transfer_id, is_success, now);
        }
        let place = match self.find_pending(transfer_id) {
            Some(place) => place,
            None => {
                return Err(VestingError::NotFound);
            },
        };
        if !is_success {
            let amount: Balance = self.pending_transfers[place].amount;
            let receiver = self.pending_transfers[place].receiver_id.clone();
            match self.legacy.credit(&receiver, amount) {
                Ok(()) => {},
                Err(error) => {
                    return Err(error);
                },
            }
            self.pending_transfers.remove(place);
            proof {
                assert(self@.pending =~= before.pending.remove(place as int));
            }
            return Ok(Vec::new());
        }
        let transfer = self.pending_transfers.remove(place);
        let ghost origins = transfer.origin_vestings@;
        let mut finished: Vec<VestingId> = Vec::new();
        let mut i: usize = 0;
        let ghost mut seen: int = 0;
        while i < self.vestings.len()
            invariant
                before.wf(),
                origins == transfer.origin_vestings@,
                0 <= seen <= before.vestings.len(),
                i <= self.vestings.len(),
                self.vestings.len() - i == before.vestings.len() - seen,
                self@ == (ContractModel {
                    vestings: self@.vestings,
                    pending: before.pending.remove(place as int),
                    ..before
                }),
                i == staying_vestings(before.vestings.take(seen), origins, now).len(),
                forall|j: int|
                    0 <= j < i ==> (#[trigger] self@.vestings[j]) == staying_vestings(
                        before.vestings.take(seen),
                        origins,
                        now,
                    )[j],
                forall|j: int|
                    i <= j < self.vestings.len() ==> (#[trigger] self@.vestings[j])
                        == before.vestings[j - i + seen],
                finished@ == leaving_ids(before.vestings.take(seen), origins, now),
            decreases self.vestings.len() - i,
        {
            let ghost entering = self@;
            proof {
                assert(before.vestings.take(seen + 1).drop_last() =~= before.vestings.take(seen));
                assert(self@.vestings[i as int] == before.vestings[seen]);
            }
            let vesting_id = self.vestings[i].get_vesting_id();
            if contains_id(&transfer.origin_vestings, vesting_id) && is_complete(
                &self.vestings[i],
                now,
            ) {
                self.vestings.remove(i);
                finished.push(vesting_id);
                proof {
                    assert(self@.vestings =~= entering.vestings.remove(i as int));
                }
            } else {
                i += 1;
            }
            proof {
                seen = seen + 1;
            }
        }
        proof {
            assert(before.vestings.take(seen) =~= before.vestings);
        }
        Ok(finished)
    }

    /// What is owed to `account_id` from transfers that failed.
    pub fn get_legacy(&self, account_id: &AccountId) -> (amount: Balance)
        ensures
            amount == self@.legacy_balance(account_id@),
    {
        self.legacy.balance_of(account_id)
    }

    /// Pays out what is owed to `account_id`, or to the caller where no
    /// account is named: afterwards nothing is owed to the account, and the
    /// transfer of what was owed is returned to be sent. Should that transfer
    /// fail too, the amount is owed again.
    pub fn withdraw_legacy(&mut self, caller: &AccountId, account_id: Option<AccountId>) -> (sent:
        Result<TransferRequest, VestingError>)
        requires
            old(self)@.wf(),
        ensures
            gives(
                sent,
                old(self)@.withdraw_legacy_result(
                    match account_id {
                        Some(named) => named@,
                        None => caller@,
                    },
                ),
            ),
            final(self)@ == old(self)@.after_withdraw_legacy(
                match account_id {
                    Some(named) => named@,
                    None => caller@,
                },
            ),
            final(self)@.wf(),
    {
        let account = match account_id {
            Some(named) => named,
            None => caller.clone(),
        };
        if self.legacy.balance_of(&account) == 0 {
            return Err(VestingError::NothingToWithdraw);
        }
        if self.uuid == u64::MAX {
            return Err(VestingError::ArithmeticOverflow);
        }
        let amount: Balance = match self.legacy.withdraw(&account) {
            Ok(amount) => amount,
            Err(error) => {
                return Err(error);
            },
        };
        let transfer_id = match self.internal_assign_id() {
            Ok(id) => id,
            Err(error) => {
                return Err(error);
            },
        };
        let request = self.internal_send_tokens(&account, amount, transfer_id, Vec::new());
        Ok(request)
    }
}

/// Whether `id` is one of `ids`.
fn contains_id(ids: &Vec<VestingId>, id: VestingId) -> (found: bool)
    ensures
        found == ids@.contains(id),
{
    let mut i: usize = 0;
    while i < ids.len()
        invariant
            i <= ids.len(),
            forall|j: int| 0 <= j < i ==> ids@[j] != id,
        decreases ids.len() - i,
    {
        if ids[i] == id {
            return true;
        }
        i += 1;
    }
    false
}

/// Whether `vesting` has nothing left to give at `now`: all of its amount is
/// released, and all of it is claimed.
fn is_complete(vesting: &Vesting, now: SecondTimeStamp) -> (complete: bool)
    requires
        vesting@.wf(),
    ensures
        complete == vesting@.complete(now),
{
    let total: Balance = vesting.get_vesting_token_info().total_vesting_amount;
    vesting.get_released_amount(now) == total && vesting.is_vesting_finish()
}

} // verus!
