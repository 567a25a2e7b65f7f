//! What a beneficiary does: claiming, and handing a vesting on.

use crate::contract::{TokenVestingContract, TransferRequest};
use crate::interfaces::BeneficiaryAction;
use crate::preservation::{
    lemma_claim_all_accepted, lemma_claim_all_rejected, lemma_claim_all_wf,
};
use crate::state::{
    claim_all_ids, claim_all_total, claim_all_vestings, gives, gives_maybe, ContractModel,
};
use crate::types::{AccountId, Balance, SecondTimeStamp, VestingError, VestingId};
use crate::vesting::model::lemma_released_bounded;
use crate::vesting::traits::{
    Beneficiary, Claimable, Frozen, VestingAmount, VestingTokenInfoTrait,
};
use crate::vesting::Vesting;
use vstd::prelude::*;

verus! {

impl BeneficiaryAction for TokenVestingContract {
    fn change_beneficiary(
        &mut self,
        caller: &AccountId,
        vesting_id: VestingId,
        new_beneficiary: AccountId,
    ) -> (done: Result<(), VestingError>) {
        let i = match self.find_vesting(vesting_id) {
            Some(i) => i,
            None => {
                return Err(VestingError::NotFound);
            },
        };
        let old_beneficiary = self.vestings[i].get_beneficiary();
        if !(*caller == old_beneficiary) && !(*caller == self.owner) {
            return Err(VestingError::Unauthorized);
        }
        self.vestings[i].set_beneficiary(new_beneficiary);
        proof {
            assert(self@.vestings =~= old(self)@.vestings.update(
                i as int,
                old(self)@.vesting(vesting_id).with_beneficiary(new_beneficiary@),
            ));
        }
        Ok(())
    }

    fn claim(&self, vesting_id: VestingId) -> (beneficiary: Result<AccountId, VestingError>) {
        match self.find_vesting(vesting_id) {
            Some(i) => Ok(self.vestings[i].get_beneficiary()),
            None => Err(VestingError::NotFound),
        }
    }

    fn claim_all(&self, caller: &AccountId, beneficiary: Option<AccountId>) -> (account:
        AccountId) {
        match beneficiary {
            Some(named) => named,
            None => caller.clone(),
        }
    }
}

impl TokenVestingContract {
    /// Goes on with a claim from the vesting `vesting_id`, now that it is
    /// known whether its beneficiary is registered with the token
    /// (`registered`) and how many tokens the contract holds (`ft_balance`).
    ///
    /// `amount` is granted, or everything claimable where no amount is given.
    /// What is granted counts as claimed at once, and its transfer to the
    /// beneficiary is returned to be sent. A rejected claim changes nothing.
    pub fn claim_callback(
        &mut self,
        vesting_id: VestingId,
        amount: Option<Balance>,
        ft_balance: Balance,
        registered: bool,
        now: SecondTimeStamp,
    ) -> (sent: Result<TransferRequest, VestingError>)
        requires
            old(self)@.wf(),
        ensures
            gives(sent, old(self)@.claim_result(vesting_id, amount, ft_balance, registered, now)),
            final(self)@ == old(self)@.after_claim(vesting_id, amount, ft_balance, registered, now),
            final(self)@.wf(),
    {
        if !registered {
            return Err(VestingError::NotRegistered);
        }
        let mut vesting = match self.internal_get_vesting(vesting_id) {
            Some(vesting) => vesting,
            None => {
                return Err(VestingError::NotFound);
            },
        };
        let beneficiary = vesting.get_beneficiary();
        let granted: Balance = match vesting.claim(amount, now) {
            Ok(granted) => granted,
            Err(error) => {
                return Err(error);
            },
        };
        if ft_balance < granted {
            return Err(VestingError::InsufficientBalance);
        }
        if self.uuid == u64::MAX {
            return Err(VestingError::ArithmeticOverflow);
        }
        if granted == 0 {
            return Err(VestingError::ZeroAmount);
        }
        self.internal_save_vesting(vesting);
        let transfer_id = match self.internal_assign_id() {
            Ok(id) => id,
            Err(error) => {
                return Err(error);
            },
        };
        let mut origins: Vec<VestingId> = Vec::new();
        origins.push(vesting_id);
        let request = self.internal_send_tokens(&beneficiary, granted, transfer_id, origins);
        Ok(request)
    }

    /// Goes on with a claim from all vestings of `beneficiary`, now that it
    /// is known whether the beneficiary is registered with the token
    /// (`registered`) and how many tokens the contract holds (`ft_balance`).
    ///
    /// Everything claimable is claimed from each of the vestings, and one
    /// transfer of the sum is returned to be sent; none, where nothing is
    /// claimable. If one of the vestings rejects the claim, nothing is
    /// claimed from any of them.
    pub fn claim_all_callback(
        &mut self,
        beneficiary: AccountId,
        ft_balance: Balance,
        registered: bool,
        now: SecondTimeStamp,
    ) -> (sent: Result<Option<TransferRequest>, VestingError>)
        requires
            old(self)@.wf(),
        ensures
            gives_maybe(
                sent,
                old(self)@.claim_all_result(beneficiary@, ft_balance, registered, now),
            ),
            final(self)@ == old(self)@.after_claim_all(beneficiary@, ft_balance, registered, now),
            final(self)@.wf(),
    {
        let ghost before = self@;
        proof {
            lemma_claim_all_wf(before, beneficiary@, ft_balance, registered, now);
        }
        if !registered {
            return Err(VestingError::NotRegistered);
        }
        let mut total: Balance = 0;
        let mut i: usize = 0;
        while i < self.vestings.len()
            invariant
                i <= self.vestings.len(),
                self@ == before,
                before == old(self)@,
                before.wf(),
                registered,
                claim_all_total(before.vestings.take(i as int), beneficiary@, now) == Ok::<
                    u128,
                    VestingError,
                >(total),
            decreases self.vestings.len() - i,
        {
            proof {
                assert(before.vestings.take(i + 1).drop_last() =~= before.vestings.take(i as int));
                assert(before.vestings[i as int].wf());
            }
            if self.vestings[i].get_beneficiary() == beneficiary {
                let granted: Balance = match granted_by(&self.vestings[i], now) {
                    Ok(granted) => granted,
                    Err(error) => {
                        proof {
                            lemma_claim_all_rejected(before.vestings, beneficiary@, now, i + 1);
                        }
                        return Err(error);
                    },
                };
                total = match total.checked_add(granted) {
                    Some(sum) => sum,
                    None => {
                        proof {
                            lemma_claim_all_rejected(before.vestings, beneficiary@, now, i + 1);
                        }
                        return Err(VestingError::ArithmeticOverflow);
                    },
                };
            }
            i += 1;
        }
        proof {
            assert(before.vestings.take(i as int) =~= before.vestings);
        }
        if total == 0 {
            return Ok(None);
        }
        if ft_balance < total {
            return Err(VestingError::InsufficientBalance);
        }
        if self.uuid == u64::MAX {
            return Err(VestingError::ArithmeticOverflow);
        }
        let mut claimed_vesting_ids: Vec<VestingId> = Vec::new();
        let mut i: usize = 0;
        while i < self.vestings.len()
            invariant
                i <= self.vestings.len(),
                before.wf(),
                claim_all_total(before.vestings, beneficiary@, now) is Ok,
                self@ == (ContractModel { vestings: self@.vestings, ..before }),
                self@.vestings.len() == before.vestings.len(),
                forall|j: int|
                    0 <= j < i ==> (#[trigger] self@.vestings[j]) == claim_all_vestings(
                        before.vestings,
                        beneficiary@,
                        now,
                    )[j],
                forall|j: int|
                    i <= j < self.vestings.len() ==> (#[trigger] self@.vestings[j])
                        == before.vestings[j],
                claimed_vesting_ids@ == claim_all_ids(
                    before.vestings.take(i as int),
                    beneficiary@,
                    now,
                ),
            decreases self.vestings.len() - i,
        {
            let ghost entering = self@;
            proof {
                assert(before.vestings.take(i + 1).drop_last() =~= before.vestings.take(i as int));
                assert(self@.vestings[i as int] == before.vestings[i as int]);
            }
            if self.vestings[i].get_beneficiary() == beneficiary {
                proof {
                    lemma_claim_all_accepted(before.vestings, beneficiary@, now, i as int);
                    lemma_released_bounded(before.vestings[i as int], now);
                }
                let vesting_id = self.vestings[i].get_vesting_id();
                match self.vestings[i].claim(None, now) {
                    Ok(granted) => {
                        if granted > 0 {
                            claimed_vesting_ids.push(vesting_id);
                        }
                    },
                    Err(_) => {},
                }
                proof {
                    assert forall|j: int| 0 <= j < self.vestings.len() && j != i implies (
                    #[trigger] self@.vestings[j]) == entering.vestings[j] by {}
                }
            }
            i += 1;
        }
        let transfer_id = match self.internal_assign_id() {
            Ok(id) => id,
            Err(error) => {
                return Err(error);
            },
        };
        let request = self.internal_send_tokens(
            &beneficiary,
            total,
            transfer_id,
            claimed_vesting_ids,
        );
        Ok(Some(request))
    }
}

/// What claiming everything from `vesting` at `now` would grant, without
/// claiming it.
fn granted_by(vesting: &Vesting, now: SecondTimeStamp) -> (granted: Result<
    Balance,
    VestingError,
>)
    requires
        vesting@.wf(),
    ensures
        granted == vesting@.claim_outcome(None, now),
{
    if vesting.is_frozen() {
        return Err(VestingError::FrozenVesting);
    }
    let released: Balance = vesting.get_released_amount(now);
    let claimed: Balance = vesting.get_vesting_token_info().claimed_token_amount;
    if released < claimed {
        return Err(VestingError::ArithmeticOverflow);
    }
    Ok(released - claimed)
}

} // verus!
