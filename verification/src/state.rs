//! The mathematical model of the whole contract, and what each operation
//! makes of it.
//!
//! The contract is a state machine. Its state is a [`ContractModel`]; for
//! every operation one function here says whether the operation is accepted,
//! and another says which state follows. A rejected operation leaves the state
//! as it is. The executable operations are proved against these functions, and
//! the laws of the contract are proved from them.

use crate::legacy::owed;
use crate::types::VestingError;
use crate::vesting::model::VestingModel;
use crate::vesting::VestingCreateParam;
use vstd::prelude::*;

verus! {

/// A token transfer that was handed out and whose outcome is not known yet.
#[verifier::ext_equal]
pub struct PendingTransferModel {
    pub transfer_id: u64,
    pub receiver: Seq<char>,
    pub amount: u128,
    /// The vestings that the tokens were claimed from; none for tokens that
    /// were owed from an earlier failure.
    pub origin_vestings: Seq<u64>,
}

/// What has to be sent: `amount` of the token `token_id` to `receiver`.
#[verifier::ext_equal]
pub struct TransferRequestModel {
    pub transfer_id: u64,
    pub receiver: Seq<char>,
    pub token_id: Seq<char>,
    pub amount: u128,
}

/// The state of the contract.
#[verifier::ext_equal]
pub struct ContractModel {
    pub owner: Seq<char>,
    pub token_id: Seq<char>,
    /// The vestings, in the order in which they were created.
    pub vestings: Seq<VestingModel>,
    /// The last number that was handed out, to a vesting or to a transfer.
    pub uuid: u64,
    /// What is owed to each account from transfers that failed.
    pub legacy: Map<Seq<char>, u128>,
    /// The transfers whose outcome is awaited, in the order in which they
    /// were handed out.
    pub pending: Seq<PendingTransferModel>,
}

/// The outcome that `expected` describes, seen through the view of its value.
pub open spec fn gives<T: View>(
    outcome: Result<T, VestingError>,
    expected: Result<T::V, VestingError>,
) -> bool {
    match outcome {
        Ok(value) => expected == Ok::<T::V, VestingError>(value@),
        Err(error) => expected == Err::<T::V, VestingError>(error),
    }
}

/// The same as [`gives`], for an outcome that may hold no value.
pub open spec fn gives_maybe<T: View>(
    outcome: Result<Option<T>, VestingError>,
    expected: Result<Option<T::V>, VestingError>,
) -> bool {
    match outcome {
        Ok(Some(value)) => expected == Ok::<Option<T::V>, VestingError>(Some(value@)),
        Ok(None) => expected == Ok::<Option<T::V>, VestingError>(None),
        Err(error) => expected == Err::<Option<T::V>, VestingError>(error),
    }
}

/// What claiming everything from the vestings of `beneficiary` adds up to, or
/// the first reason, in the order of the vestings, for which it is rejected:
/// a frozen vesting, one from which more is claimed than is released, or a
/// sum that leaves the range of a balance.
pub open spec fn claim_all_total(
    vestings: Seq<VestingModel>,
    beneficiary: Seq<char>,
    now: u64,
) -> Result<u128, VestingError>
    decreases vestings.len(),
{
    if vestings.len() == 0 {
        Ok(0)
    } else {
        match claim_all_total(vestings.drop_last(), beneficiary, now) {
            Err(error) => Err(error),
            Ok(sum) => if vestings.last().beneficiary != beneficiary {
                Ok(sum)
            } else {
                match vestings.last().claim_outcome(None, now) {
                    Err(error) => Err(error),
                    Ok(granted) => if sum + granted > u128::MAX {
                        Err(VestingError::ArithmeticOverflow)
                    } else {
                        Ok((sum + granted) as u128)
                    },
                }
            },
        }
    }
}

/// The vestings after everything claimable was claimed from those of
/// `beneficiary`.
pub open spec fn claim_all_vestings(
    vestings: Seq<VestingModel>,
    beneficiary: Seq<char>,
    now: u64,
) -> Seq<VestingModel> {
    vestings.map_values(
        |vesting: VestingModel|
            if vesting.beneficiary == beneficiary {
                vesting.after_claim(None, now)
            } else {
                vesting
            },
    )
}

/// The numbers of the vestings of `beneficiary` from which something can be
/// claimed at `now`, in the order of the vestings.
pub open spec fn claim_all_ids(
    vestings: Seq<VestingModel>,
    beneficiary: Seq<char>,
    now: u64,
) -> Seq<u64>
    decreases vestings.len(),
{
    if vestings.len() == 0 {
        Seq::empty()
    } else {
        let rest = claim_all_ids(vestings.drop_last(), beneficiary, now);
        if vestings.last().beneficiary == beneficiary && vestings.last().claimable_amount(now)
            > 0 {
            rest.push(vestings.last().id)
        } else {
            rest
        }
    }
}

/// Whether a vesting leaves the registry when a transfer for the vestings
/// `origins` has succeeded: it is one of them and has nothing left to give.
pub open spec fn leaves_on_success(vesting: VestingModel, origins: Seq<u64>, now: u64) -> bool {
    origins.contains(vesting.id) && vesting.complete(now)
}

/// The vestings that stay when a transfer for `origins` has succeeded.
pub open spec fn staying_vestings(
    vestings: Seq<VestingModel>,
    origins: Seq<u64>,
    now: u64,
) -> Seq<VestingModel>
    decreases vestings.len(),
{
    if vestings.len() == 0 {
        Seq::empty()
    } else {
        let rest = staying_vestings(vestings.drop_last(), origins, now);
        if leaves_on_success(vestings.last(), origins, now) {
            rest
        } else {
            rest.push(vestings.last())
        }
    }
}

/// The numbers of the vestings that leave when a transfer for `origins` has
/// succeeded, in the order of the vestings.
pub open spec fn leaving_ids(vestings: Seq<VestingModel>, origins: Seq<u64>, now: u64) -> Seq<
    u64,
>
    decreases vestings.len(),
{
    if vestings.len() == 0 {
        Seq::empty()
    } else {
        let rest = leaving_ids(vestings.drop_last(), origins, now);
        if leaves_on_success(vestings.last(), origins, now) {
            rest.push(vestings.last().id)
        } else {
            rest
        }
    }
}

/// The vestings of `beneficiary`, or all of them where none is named, in
/// their order.
pub open spec fn vestings_of(vestings: Seq<VestingModel>, beneficiary: Option<Seq<char>>) -> Seq<
    VestingModel,
>
    decreases vestings.len(),
{
    if vestings.len() == 0 {
        Seq::empty()
    } else {
        let rest = vestings_of(vestings.drop_last(), beneficiary);
        if beneficiary is None || beneficiary == Some(vestings.last().beneficiary) {
            rest.push(vestings.last())
        } else {
            rest
        }
    }
}

/// A page of `all`: at most `limit` of them, after leaving out the first
/// `from_index`.
pub open spec fn page_of(all: Seq<VestingModel>, from_index: u32, limit: u32) -> Seq<
    VestingModel,
> {
    let start = if from_index <= all.len() {
        from_index as int
    } else {
        all.len() as int
    };
    let end = if start + limit <= all.len() {
        start + limit
    } else {
        all.len() as int
    };
    all.subrange(start, end)
}

/// The account that is named, if one is.
pub open spec fn named_account(account: Option<String>) -> Option<Seq<char>> {
    match account {
        Some(named) => Some(named@),
        None => None,
    }
}

/// The sum of what is claimable at `now` from the vestings of `beneficiary`,
/// or from all of them where none is named; rejected where more is claimed
/// from one of them than is released, or where the sum leaves the range of a
/// balance.
pub open spec fn claimable_total(
    vestings: Seq<VestingModel>,
    beneficiary: Option<Seq<char>>,
    now: u64,
) -> Result<u128, VestingError>
    decreases vestings.len(),
{
    if vestings.len() == 0 {
        Ok(0)
    } else {
        match claimable_total(vestings.drop_last(), beneficiary, now) {
            Err(error) => Err(error),
            Ok(sum) => if !(beneficiary is None || beneficiary == Some(
                vestings.last().beneficiary,
            )) {
                Ok(sum)
            } else if vestings.last().claimable_amount(now) < 0 || sum
                + vestings.last().claimable_amount(now) > u128::MAX {
                Err(VestingError::ArithmeticOverflow)
            } else {
                Ok((sum + vestings.last().claimable_amount(now)) as u128)
            },
        }
    }
}

impl ContractModel {
    /// What holds of the contract at all times: every vesting is well formed,
    /// numbers grow along the vestings and along the pending transfers, none
    /// of them is larger than the last number handed out, and no pending
    /// transfer is empty.
    pub open spec fn wf(self) -> bool {
        &&& forall|i: int| 0 <= i < self.vestings.len() ==> (#[trigger] self.vestings[i]).wf()
        &&& forall|i: int|
            0 <= i < self.vestings.len() ==> (#[trigger] self.vestings[i]).id <= self.uuid
        &&& forall|i: int, j: int|
            0 <= i < j < self.vestings.len() ==> (#[trigger] self.vestings[i]).id < (
            #[trigger] self.vestings[j]).id
        &&& forall|i: int|
            0 <= i < self.pending.len() ==> (#[trigger] self.pending[i]).transfer_id <= self.uuid
        &&& forall|i: int| 0 <= i < self.pending.len() ==> (#[trigger] self.pending[i]).amount > 0
        &&& forall|i: int, j: int|
            0 <= i < j < self.pending.len() ==> (#[trigger] self.pending[i]).transfer_id < (
            #[trigger] self.pending[j]).transfer_id
    }

    /// The state of a contract that was just set up.
    pub open spec fn initial(owner: Seq<char>, token_id: Seq<char>) -> ContractModel {
        ContractModel {
            owner,
            token_id,
            vestings: Seq::empty(),
            uuid: 0,
            legacy: Map::empty(),
            pending: Seq::empty(),
        }
    }

    pub open spec fn has_vesting(self, id: u64) -> bool {
        exists|i: int| 0 <= i < self.vestings.len() && (#[trigger] self.vestings[i]).id == id
    }

    /// The place of the vesting with the number `id`, if there is one.
    pub open spec fn vesting_index(self, id: u64) -> int {
        choose|i: int| 0 <= i < self.vestings.len() && (#[trigger] self.vestings[i]).id == id
    }

    /// The vesting with the number `id`, if there is one.
    pub open spec fn vesting(self, id: u64) -> VestingModel {
        self.vestings[self.vesting_index(id)]
    }

    pub open spec fn has_pending(self, transfer_id: u64) -> bool {
        exists|i: int|
            0 <= i < self.pending.len() && (#[trigger] self.pending[i]).transfer_id == transfer_id
    }

    /// The place of the pending transfer with the number `transfer_id`, if
    /// there is one.
    pub open spec fn pending_index(self, transfer_id: u64) -> int {
        choose|i: int|
            0 <= i < self.pending.len() && (#[trigger] self.pending[i]).transfer_id == transfer_id
    }

    /// The pending transfer with the number `transfer_id`, if there is one.
    pub open spec fn pending_transfer(self, transfer_id: u64) -> PendingTransferModel {
        self.pending[self.pending_index(transfer_id)]
    }

    /// What is owed to `account` from failed transfers.
    pub open spec fn legacy_balance(self, account: Seq<char>) -> u128 {
        owed(self.legacy, account)
    }

    /// The next number, handed out to a vesting or to a transfer.
    pub open spec fn next_id(self) -> u64 {
        (self.uuid + 1) as u64
    }

    /// The state after the transfer of `amount` to `receiver` was handed out
    /// under the next number.
    pub open spec fn with_transfer(
        self,
        receiver: Seq<char>,
        amount: u128,
        origins: Seq<u64>,
    ) -> ContractModel {
        ContractModel {
            uuid: self.next_id(),
            pending: self.pending.push(
                PendingTransferModel {
                    transfer_id: self.next_id(),
                    receiver,
                    amount,
                    origin_vestings: origins,
                },
            ),
            ..self
        }
    }

    /// The request that goes with [`Self::with_transfer`].
    pub open spec fn transfer_request(
        self,
        receiver: Seq<char>,
        amount: u128,
    ) -> TransferRequestModel {
        TransferRequestModel {
            transfer_id: self.next_id(),
            receiver,
            token_id: self.token_id,
            amount,
        }
    }

    // The owner

    pub open spec fn set_owner_result(self, caller: Seq<char>) -> Result<(), VestingError> {
        if caller != self.owner {
            Err(VestingError::Unauthorized)
        } else {
            Ok(())
        }
    }

    pub open spec fn after_set_owner(self, caller: Seq<char>, owner: Seq<char>) -> ContractModel {
        if self.set_owner_result(caller) is Ok {
            ContractModel { owner, ..self }
        } else {
            self
        }
    }

    /// Only the owner creates a vesting. It gets the next number, unless the
    /// numbers are used up or the statements make no valid schedule.
    pub open spec fn create_result(self, caller: Seq<char>, param: VestingCreateParam) -> Result<
        u64,
        VestingError,
    > {
        if caller != self.owner {
            Err(VestingError::Unauthorized)
        } else if self.uuid == u64::MAX {
            Err(VestingError::ArithmeticOverflow)
        } else if !param.valid() {
            Err(VestingError::InvalidSchedule)
        } else {
            Ok(self.next_id())
        }
    }

    pub open spec fn after_create(
        self,
        caller: Seq<char>,
        param: VestingCreateParam,
        now: u64,
    ) -> ContractModel {
        if self.create_result(caller, param) is Ok {
            ContractModel {
                uuid: self.next_id(),
                vestings: self.vestings.push(param.model(self.next_id(), now)),
                ..self
            }
        } else {
            self
        }
    }

    /// Only the owner freezes and unfreezes, and only a vesting that exists.
    pub open spec fn set_frozen_result(self, caller: Seq<char>, id: u64) -> Result<
        (),
        VestingError,
    > {
        if caller != self.owner {
            Err(VestingError::Unauthorized)
        } else if !self.has_vesting(id) {
            Err(VestingError::NotFound)
        } else {
            Ok(())
        }
    }

    pub open spec fn after_set_frozen(
        self,
        caller: Seq<char>,
        id: u64,
        frozen: bool,
    ) -> ContractModel {
        if self.set_frozen_result(caller, id) is Ok {
            ContractModel {
                vestings: self.vestings.update(
                    self.vesting_index(id),
                    self.vesting(id).with_frozen(frozen),
                ),
                ..self
            }
        } else {
            self
        }
    }

    /// Only the owner terminates. Terminating a vesting that does not exist
    /// is accepted and changes nothing.
    pub open spec fn terminate_result(self, caller: Seq<char>) -> Result<(), VestingError> {
        if caller != self.owner {
            Err(VestingError::Unauthorized)
        } else {
            Ok(())
        }
    }

    /// The vesting is taken out as it is: what was not claimed from it is
    /// forfeited, and nothing is sent or owed in its place.
    pub open spec fn after_terminate(self, caller: Seq<char>, id: u64) -> ContractModel {
        if self.terminate_result(caller) is Ok && self.has_vesting(id) {
            ContractModel { vestings: self.vestings.remove(self.vesting_index(id)), ..self }
        } else {
            self
        }
    }

    /// The owner and the beneficiary of a vesting can hand it to another
    /// beneficiary.
    pub open spec fn change_beneficiary_result(self, caller: Seq<char>, id: u64) -> Result<
        (),
        VestingError,
    > {
        if !self.has_vesting(id) {
            Err(VestingError::NotFound)
        } else if caller != self.vesting(id).beneficiary && caller != self.owner {
            Err(VestingError::Unauthorized)
        } else {
            Ok(())
        }
    }

    pub open spec fn after_change_beneficiary(
        self,
        caller: Seq<char>,
        id: u64,
        beneficiary: Seq<char>,
    ) -> ContractModel {
        if self.change_beneficiary_result(caller, id) is Ok {
            ContractModel {
                vestings: self.vestings.update(
                    self.vesting_index(id),
                    self.vesting(id).with_beneficiary(beneficiary),
                ),
                ..self
            }
        } else {
            self
        }
    }

    // Claims

    /// The account whose standing with the token has to be looked up before a
    /// claim from the vesting `id` goes on: its beneficiary.
    pub open spec fn claim_query(self, id: u64) -> Result<Seq<char>, VestingError> {
        if !self.has_vesting(id) {
            Err(VestingError::NotFound)
        } else {
            Ok(self.vesting(id).beneficiary)
        }
    }

    /// A claim from the vesting `id`, once it is known whether the beneficiary
    /// is registered with the token and how many tokens the contract holds.
    ///
    /// The reasons for which it is rejected, in this order: the beneficiary
    /// is not registered; there is no such vesting; the vesting rejects the
    /// claim; the contract holds less than was granted; the numbers are used
    /// up; nothing was granted.
    pub open spec fn claim_result(
        self,
        id: u64,
        amount: Option<u128>,
        ft_balance: u128,
        registered: bool,
        now: u64,
    ) -> Result<TransferRequestModel, VestingError> {
        if !registered {
            Err(VestingError::NotRegistered)
        } else if !self.has_vesting(id) {
            Err(VestingError::NotFound)
        } else {
            match self.vesting(id).claim_outcome(amount, now) {
                Err(error) => Err(error),
                Ok(granted) => if ft_balance < granted {
                    Err(VestingError::InsufficientBalance)
                } else if self.uuid == u64::MAX {
                    Err(VestingError::ArithmeticOverflow)
                } else if granted == 0 {
                    Err(VestingError::ZeroAmount)
                } else {
                    Ok(self.transfer_request(self.vesting(id).beneficiary, granted))
                },
            }
        }
    }

    /// After a claim the granted amount counts as claimed, and its transfer
    /// to the beneficiary is pending. The vesting stays until the transfer
    /// has succeeded.
    pub open spec fn after_claim(
        self,
        id: u64,
        amount: Option<u128>,
        ft_balance: u128,
        registered: bool,
        now: u64,
    ) -> ContractModel {
        match self.claim_result(id, amount, ft_balance, registered, now) {
            Ok(request) => ContractModel {
                vestings: self.vestings.update(
                    self.vesting_index(id),
                    self.vesting(id).after_claim(amount, now),
                ),
                ..self
            }.with_transfer(request.receiver, request.amount, seq![id]),
            Err(_) => self,
        }
    }

    /// A claim of everything claimable from all vestings of `beneficiary`.
    /// Where nothing is claimable, it is accepted and nothing is sent.
    ///
    /// The reasons for which it is rejected, in this order: the beneficiary
    /// is not registered; one of the vestings rejects the claim, or the sum
    /// leaves the range of a balance; the contract holds less than the sum;
    /// the numbers are used up.
    pub open spec fn claim_all_result(
        self,
        beneficiary: Seq<char>,
        ft_balance: u128,
        registered: bool,
        now: u64,
    ) -> Result<Option<TransferRequestModel>, VestingError> {
        if !registered {
            Err(VestingError::NotRegistered)
        } else {
            match claim_all_total(self.vestings, beneficiary, now) {
                Err(error) => Err(error),
                Ok(total) => if total == 0 {
                    Ok(None)
                } else if ft_balance < total {
                    Err(VestingError::InsufficientBalance)
                } else if self.uuid == u64::MAX {
                    Err(VestingError::ArithmeticOverflow)
                } else {
                    Ok(Some(self.transfer_request(beneficiary, total)))
                },
            }
        }
    }

    /// After a claim of everything, each vesting of the beneficiary has all
    /// that was claimable counted as claimed, and one transfer of the sum is
    /// pending.
    pub open spec fn after_claim_all(
        self,
        beneficiary: Seq<char>,
        ft_balance: u128,
        registered: bool,
        now: u64,
    ) -> ContractModel {
        match self.claim_all_result(beneficiary, ft_balance, registered, now) {
            Ok(Some(request)) => ContractModel {
                vestings: claim_all_vestings(self.vestings, beneficiary, now),
                ..self
            }.with_transfer(
                request.receiver,
                request.amount,
                claim_all_ids(self.vestings, beneficiary, now),
            ),
            _ => self,
        }
    }

    // Transfers

    /// The report of the outcome of the transfer `transfer_id`. It is
    /// rejected where no such transfer is pending, and where the amount of a
    /// failed transfer cannot be added to what is owed to the receiver.
    ///
    /// It gives the numbers of the vestings that left the registry.
    pub open spec fn resolve_result(self, transfer_id: u64, is_success: bool, now: u64) -> Result<
        Seq<u64>,
        VestingError,
    > {
        if !self.has_pending(transfer_id) {
            Err(VestingError::NotFound)
        } else {
            let transfer = self.pending_transfer(transfer_id);
            if is_success {
                Ok(leaving_ids(self.vestings, transfer.origin_vestings, now))
            } else if self.legacy_balance(transfer.receiver) + transfer.amount > u128::MAX {
                Err(VestingError::ArithmeticOverflow)
            } else {
                Ok(Seq::empty())
            }
        }
    }

    /// Either way the transfer is no longer pending. After a success the
    /// vestings that it was claimed from leave the registry where they have
    /// nothing left to give. After a failure the amount is owed to the
    /// receiver; what was claimed stays claimed.
    pub open spec fn after_resolve(
        self,
        transfer_id: u64,
        is_success: bool,
        now: u64,
    ) -> ContractModel {
        if self.resolve_result(transfer_id, is_success, now) is Ok {
            let transfer = self.pending_transfer(transfer_id);
            if is_success {
                ContractModel {
                    pending: self.pending.remove(self.pending_index(transfer_id)),
                    vestings: staying_vestings(self.vestings, transfer.origin_vestings, now),
                    ..self
                }
            } else {
                ContractModel {
                    pending: self.pending.remove(self.pending_index(transfer_id)),
                    legacy: self.legacy.insert(
                        transfer.receiver,
                        (self.legacy_balance(transfer.receiver) + transfer.amount) as u128,
                    ),
                    ..self
                }
            }
        } else {
            self
        }
    }

    /// Paying out what is owed to `account`. It is rejected where nothing is
    /// owed, and where the numbers are used up.
    pub open spec fn withdraw_legacy_result(self, account: Seq<char>) -> Result<
        TransferRequestModel,
        VestingError,
    > {
        if self.legacy_balance(account) == 0 {
            Err(VestingError::NothingToWithdraw)
        } else if self.uuid == u64::MAX {
            Err(VestingError::ArithmeticOverflow)
        } else {
            Ok(self.transfer_request(account, self.legacy_balance(account)))
        }
    }

    /// After paying out nothing is owed to the account any more, and the
    /// transfer of what was owed is pending.
    pub open spec fn after_withdraw_legacy(self, account: Seq<char>) -> ContractModel {
        match self.withdraw_legacy_result(account) {
            Ok(request) => ContractModel {
                legacy: self.legacy.insert(account, 0),
                ..self
            }.with_transfer(account, request.amount, Seq::empty()),
            Err(_) => self,
        }
    }

    // Views

    /// What is claimable at `now` from the vesting `id`.
    pub open spec fn claimable_result(self, id: u64, now: u64) -> Result<u128, VestingError> {
        if !self.has_vesting(id) {
            Err(VestingError::NotFound)
        } else if self.vesting(id).claimable_amount(now) < 0 {
            Err(VestingError::ArithmeticOverflow)
        } else {
            Ok(self.vesting(id).claimable_amount(now) as u128)
        }
    }

    /// A page of the vestings of `beneficiary`, or of all vestings where none
    /// is named: at most `limit` of them, after leaving out the first
    /// `from_index`.
    pub open spec fn page(self, from_index: u32, limit: u32, beneficiary: Option<Seq<char>>) -> Seq<
        VestingModel,
    > {
        page_of(vestings_of(self.vestings, beneficiary), from_index, limit)
    }

    /// The vesting with the number `id`.
    pub open spec fn vesting_result(self, id: u64) -> Result<VestingModel, VestingError> {
        if !self.has_vesting(id) {
            Err(VestingError::NotFound)
        } else {
            Ok(self.vesting(id))
        }
    }
}

/// One operation that changes the contract, with all that it is told.
pub enum Operation {
    SetOwner { caller: Seq<char>, owner: Seq<char> },
    Create { caller: Seq<char>, param: VestingCreateParam, now: u64 },
    SetFrozen { caller: Seq<char>, id: u64, frozen: bool },
    Terminate { caller: Seq<char>, id: u64 },
    ChangeBeneficiary { caller: Seq<char>, id: u64, beneficiary: Seq<char> },
    Claim { id: u64, amount: Option<u128>, ft_balance: u128, registered: bool, now: u64 },
    ClaimAll { beneficiary: Seq<char>, ft_balance: u128, registered: bool, now: u64 },
    Resolve { transfer_id: u64, is_success: bool, now: u64 },
    WithdrawLegacy { account: Seq<char> },
}

impl ContractModel {
    /// The state after one operation, accepted or not.
    pub open spec fn step(self, operation: Operation) -> ContractModel {
        match operation {
            Operation::SetOwner { caller, owner } => self.after_set_owner(caller, owner),
            Operation::Create { caller, param, now } => self.after_create(caller, param, now),
            Operation::SetFrozen { caller, id, frozen } => self.after_set_frozen(
                caller,
                id,
                frozen,
            ),
            Operation::Terminate { caller, id } => self.after_terminate(caller, id),
            Operation::ChangeBeneficiary { caller, id, beneficiary } => {
                self.after_change_beneficiary(caller, id, beneficiary)
            },
            Operation::Claim { id, amount, ft_balance, registered, now } => self.after_claim(
                id,
                amount,
                ft_balance,
                registered,
                now,
            ),
            Operation::ClaimAll { beneficiary, ft_balance, registered, now } => {
                self.after_claim_all(beneficiary, ft_balance, registered, now)
            },
            Operation::Resolve { transfer_id, is_success, now } => self.after_resolve(
                transfer_id,
                is_success,
                now,
            ),
            Operation::WithdrawLegacy { account } => self.after_withdraw_legacy(account),
        }
    }

    /// The state after a run of operations, one after the other.
    pub open spec fn run(self, operations: Seq<Operation>) -> ContractModel
        decreases operations.len(),
    {
        if operations.len() == 0 {
            self
        } else {
            self.run(operations.drop_last()).step(operations.last())
        }
    }
}

} // verus!
