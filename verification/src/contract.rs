//! The contract: its owner, its token, its vestings, and the transfers and
//! debts that claims leave behind.

use crate::legacy::LegacyLedger;
use crate::state::{ContractModel, PendingTransferModel, TransferRequestModel};
use crate::types::{AccountId, Balance, TransferId, VestingError, VestingId};
use crate::vesting::Vesting;
use vstd::prelude::*;

verus! {

/// A token transfer that was handed out and whose outcome is not known yet.
#[derive(Debug, Clone, PartialEq, Eq)]
pub struct PendingTransfer {
    pub transfer_id: TransferId,
    pub receiver_id: AccountId,
    pub amount: Balance,
    /// The vestings that the tokens were claimed from.
    pub origin_vestings: Vec<VestingId>,
}

/// What the caller has to send: `amount` of the token `token_id` to
/// `receiver_id`. The outcome is reported back under `transfer_id`.
#[derive(Debug, Clone, PartialEq, Eq)]
pub struct TransferRequest {
    pub transfer_id: TransferId,
    pub receiver_id: AccountId,
    pub token_id: AccountId,
    pub amount: Balance,
}

/// The state of the contract. It is made once and changed by every call.
///
/// The operations ask for a well formed contract and leave it well formed.
/// A contract that was put together by hand can be tested with
/// [`TokenVestingContract::is_well_formed`].
#[derive(Debug, Clone, PartialEq, Eq)]
pub struct TokenVestingContract {
    pub owner: AccountId,
    pub token_id: AccountId,
    pub vestings: Vec<Vesting>,
    pub uuid: u64,
    pub legacy: LegacyLedger,
    pub pending_transfers: Vec<PendingTransfer>,
}

impl View for PendingTransfer {
    type V = PendingTransferModel;

    open spec fn view(&self) -> PendingTransferModel {
        PendingTransferModel {
            transfer_id: self.transfer_id,
            receiver: self.receiver_id@,
            amount: self.amount,
            origin_vestings: self.origin_vestings@,
        }
    }
}

impl View for TransferRequest {
    type V = TransferRequestModel;

    open spec fn view(&self) -> TransferRequestModel {
        TransferRequestModel {
            transfer_id: self.transfer_id,
            receiver: self.receiver_id@,
            token_id: self.token_id@,
            amount: self.amount,
        }
    }
}

impl View for TokenVestingContract {
    type V = ContractModel;

    open spec fn view(&self) -> ContractModel {
        ContractModel {
            owner: self.owner@,
            token_id: self.token_id@,
            vestings: self.vestings@.map_values(|vesting: Vesting| vesting@),
            uuid: self.uuid,
            legacy: self.legacy@,
            pending: self.pending_transfers@.map_values(|transfer: PendingTransfer| transfer@),
        }
    }
}

/// The price of the storage by which a call made the contract grow.
pub open spec fn storage_cost(
    prev_storage: u64,
    storage_usage: u64,
    storage_byte_cost: u128,
) -> int {
    if storage_usage >= prev_storage {
        (storage_usage - prev_storage) * storage_byte_cost
    } else {
        0
    }
}

/// What is given back of a deposit after the storage is paid for. It is
/// rejected where the price leaves the range of a balance, and where the
/// deposit does not cover it.
pub open spec fn storage_refund(
    prev_storage: u64,
    storage_usage: u64,
    storage_byte_cost: u128,
    attached_deposit: u128,
) -> Result<u128, VestingError> {
    let cost = storage_cost(prev_storage, storage_usage, storage_byte_cost);
    if cost > u128::MAX {
        Err(VestingError::ArithmeticOverflow)
    } else if attached_deposit < cost {
        Err(VestingError::InsufficientDeposit)
    } else {
        Ok((attached_deposit - cost) as u128)
    }
}

impl TokenVestingContract {
    /// Sets the contract up for the token `token_id`, with no vestings.
    pub fn new(owner: AccountId, token_id: AccountId) -> (contract: Self)
        ensures
            contract@ == ContractModel::initial(owner@, token_id@),
            contract@.wf(),
    {
        TokenVestingContract {
            owner,
            token_id,
            vestings: Vec::new(),
            uuid: 0,
            legacy: LegacyLedger::new(),
            pending_transfers: Vec::new(),
        }
    }

    /// Whether the contract is well formed: every vesting is, the numbers of
    /// the vestings and of the pending transfers grow and do not exceed the
    /// last number handed out, and no pending transfer is empty.
    pub fn is_well_formed(&self) -> (valid: bool)
        ensures
            valid == self@.wf(),
    {
        let mut i: usize = 0;
        while i < self.vestings.len()
            invariant
                i <= self.vestings.len(),
                forall|j: int| 0 <= j < i ==> (#[trigger] self@.vestings[j]).wf(),
                forall|j: int| 0 <= j < i ==> (#[trigger] self@.vestings[j]).id <= self.uuid,
                forall|j: int, k: int|
                    0 <= j < k < i ==> (#[trigger] self@.vestings[j]).id < (
                    #[trigger] self@.vestings[k]).id,
            decreases self.vestings.len() - i,
        {
            let id = self.vestings[i].get_vesting_id();
            if !self.vestings[i].is_well_formed() || id > self.uuid {
                return false;
            }
            if i > 0 && self.vestings[i - 1].get_vesting_id() >= id {
                assert(!(self@.vestings[i - 1].id < self@.vestings[i as int].id));
                return false;
            }
            i += 1;
        }
        let mut i: usize = 0;
        while i < self.pending_transfers.len()
            invariant
                i <= self.pending_transfers.len(),
                forall|j: int|
                    0 <= j < i ==> (#[trigger] self@.pending[j]).transfer_id <= self.uuid,
                forall|j: int| 0 <= j < i ==> (#[trigger] self@.pending[j]).amount > 0,
                forall|j: int, k: int|
                    0 <= j < k < i ==> (#[trigger] self@.pending[j]).transfer_id < (
                    #[trigger] self@.pending[k]).transfer_id,
            decreases self.pending_transfers.len() - i,
        {
            let id = self.pending_transfers[i].transfer_id;
            if id > self.uuid || self.pending_transfers[i].amount == 0 {
                assert(!(self@.pending[i as int].transfer_id <= self.uuid
                    && self@.pending[i as int].amount > 0));
                return false;
            }
            if i > 0 && self.pending_transfers[i - 1].transfer_id >= id {
                assert(!(self@.pending[i - 1].transfer_id < self@.pending[i as int].transfer_id));
                return false;
            }
            i += 1;
        }
        true
    }

    /// What is given back of `attached_deposit` once the storage that a call
    /// has taken is paid for: the deposit less the price of the bytes by
    /// which the storage grew from `prev_storage` to `storage_usage`. Storage
    /// that shrank costs nothing and earns nothing.
    pub fn internal_check_storage(
        prev_storage: u64,
        storage_usage: u64,
        storage_byte_cost: Balance,
        attached_deposit: Balance,
    ) -> (refund: Result<Balance, VestingError>)
        ensures
            refund == storage_refund(
                prev_storage,
                storage_usage,
                storage_byte_cost,
                attached_deposit,
            ),
    {
        let taken: u64 = match storage_usage.checked_sub(prev_storage) {
            Some(taken) => taken,
            None => 0,
        };
        let taken_wide: Balance = taken as Balance;
        proof {
            assert(taken_wide * storage_byte_cost == storage_cost(
                prev_storage,
                storage_usage,
                storage_byte_cost,
            )) by (nonlinear_arith)
                requires
                    taken_wide == if storage_usage >= prev_storage {
                        storage_usage - prev_storage
                    } else {
                        0
                    },
                    storage_cost(prev_storage, storage_usage, storage_byte_cost)
                        == if storage_usage >= prev_storage {
                        (storage_usage - prev_storage) * storage_byte_cost
                    } else {
                        0
                    },
            ;
        }
        let storage_cost: Balance = match taken_wide.checked_mul(storage_byte_cost) {
            Some(cost) => cost,
            None => {
                return Err(VestingError::ArithmeticOverflow);
            },
        };
        match attached_deposit.checked_sub(storage_cost) {
            Some(refund) => Ok(refund),
            None => Err(VestingError::InsufficientDeposit),
        }
    }

    /// Hands out the next number, unless the numbers are used up.
    pub(crate) fn internal_assign_id(&mut self) -> (id: Result<u64, VestingError>)
        ensures
            old(self).uuid < u64::MAX ==> id == Ok::<u64, VestingError>(old(self)@.next_id())
                && final(self)@ == (ContractModel { uuid: old(self)@.next_id(), ..old(self)@ }),
            old(self).uuid == u64::MAX ==> id == Err::<u64, VestingError>(
                VestingError::ArithmeticOverflow,
            ) && final(self)@ == old(self)@,
    {
        if self.uuid == u64::MAX {
            return Err(VestingError::ArithmeticOverflow);
        }
        self.uuid = self.uuid + 1;
        Ok(self.uuid)
    }

    /// The place of the vesting with the number `vesting_id`.
    pub(crate) fn find_vesting(&self, vesting_id: VestingId) -> (place: Option<usize>)
        requires
            self@.wf(),
        ensures
            match place {
                Some(i) => i < self.vestings.len() && self@.has_vesting(vesting_id)
                    && self@.vesting_index(vesting_id) == i,
                None => !self@.has_vesting(vesting_id),
            },
    {
        let mut i: usize = 0;
        while i < self.vestings.len()
            invariant
                i <= self.vestings.len(),
                self@.wf(),
                forall|j: int| 0 <= j < i ==> (#[trigger] self@.vestings[j]).id != vesting_id,
            decreases self.vestings.len() - i,
        {
            if self.vestings[i].get_vesting_id() == vesting_id {
                assert(self@.vestings[i as int].id == vesting_id);
                return Some(i);
            }
            i += 1;
        }
        None
    }

    /// The place of the pending transfer with the number `transfer_id`.
    pub(crate) fn find_pending(&self, transfer_id: TransferId) -> (place: Option<usize>)
        requires
            self@.wf(),
        ensures
            match place {
                Some(i) => i < self.pending_transfers.len() && self@.has_pending(transfer_id)
                    && self@.pending_index(transfer_id) == i,
                None => !self@.has_pending(transfer_id),
            },
    {
        let mut i: usize = 0;
        while i < self.pending_transfers.len()
            invariant
                i <= self.pending_transfers.len(),
                self@.wf(),
                forall|j: int|
                    0 <= j < i ==> (#[trigger] self@.pending[j]).transfer_id != transfer_id,
            decreases self.pending_transfers.len() - i,
        {
            if self.pending_transfers[i].transfer_id == transfer_id {
                assert(self@.pending[i as int].transfer_id == transfer_id);
                return Some(i);
            }
            i += 1;
        }
        None
    }

    /// A copy of the vesting with the number `vesting_id`, if there is one.
    pub(crate) fn internal_get_vesting(&self, vesting_id: VestingId) -> (found: Option<Vesting>)
        requires
            self@.wf(),
        ensures
            match found {
                Some(vesting) => self@.has_vesting(vesting_id) && vesting@ == self@.vesting(
                    vesting_id,
                ),
                None => !self@.has_vesting(vesting_id),
            },
    {
        match self.find_vesting(vesting_id) {
            Some(i) => Some(self.vestings[i].clone()),
            None => None,
        }
    }

    /// Puts `vesting` in the place of the vesting that has its number.
    pub(crate) fn internal_save_vesting(&mut self, vesting: Vesting)
        requires
            old(self)@.wf(),
            old(self)@.has_vesting(vesting@.id),
        ensures
            final(self)@ == (ContractModel {
                vestings: old(self)@.vestings.update(
                    old(self)@.vesting_index(vesting@.id),
                    vesting@,
                ),
                ..old(self)@
            }),
    {
        let id = vesting.get_vesting_id();
        match self.find_vesting(id) {
            Some(i) => {
                self.vestings[i] = vesting;
            },
            None => {},
        }
    }

    /// Takes the vesting with the number `vesting_id` out, if there is one.
    pub(crate) fn internal_remove_vesting(&mut self, vesting_id: VestingId)
        requires
            old(self)@.wf(),
        ensures
            final(self)@ == (ContractModel {
                vestings: if old(self)@.has_vesting(vesting_id) {
                    old(self)@.vestings.remove(old(self)@.vesting_index(vesting_id))
                } else {
                    old(self)@.vestings
                },
                ..old(self)@
            }),
    {
        match self.find_vesting(vesting_id) {
            Some(i) => {
                self.vestings.remove(i);
            },
            None => {},
        }
    }
}

} // verus!
