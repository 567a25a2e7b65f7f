//! What can be read from the contract.

use crate::contract::TokenVestingContract;
use crate::interfaces::Viewer;
use crate::preservation::{lemma_claimable_total_rejected, lemma_page_push};
use crate::state::{claimable_total, named_account, page_of, vestings_of};
use crate::types::{AccountId, Balance, SecondTimeStamp, VestingError, VestingId};
use crate::vesting::model::{lemma_released_bounded, VestingModel};
use crate::vesting::traits::{Beneficiary, VestingAmount, VestingTokenInfoTrait};
use crate::vesting::Vesting;
use vstd::prelude::*;

verus! {

/// Whether `vesting` belongs to `beneficiary`; to no one in particular, every
/// vesting belongs.
fn belongs_to(vesting: &Vesting, beneficiary: &Option<AccountId>) -> (belongs: bool)
    ensures
        belongs == (*beneficiary is None || named_account(*beneficiary) == Some(
            vesting@.beneficiary,
        )),
{
    match beneficiary {
        Some(named) => vesting.get_beneficiary() == *named,
        None => true,
    }
}

impl Viewer for TokenVestingContract {
    fn get_vesting_token_id(&self) -> (token_id: AccountId) {
        self.token_id.clone()
    }

    fn get_vesting(&self, from_index: u32, limit: u32, beneficiary: Option<AccountId>) -> (page:
        Vec<Vesting>) {
        let ghost named = named_account(beneficiary);
        let mut page: Vec<Vesting> = Vec::new();
        let mut matching: usize = 0;
        let mut i: usize = 0;
        while i < self.vestings.len()
            invariant
                i <= self.vestings.len(),
                named == named_account(beneficiary),
                matching == vestings_of(self@.vestings.take(i as int), named).len(),
                matching <= i,
                page@.map_values(|vesting: Vesting| vesting@) == page_of(
                    vestings_of(self@.vestings.take(i as int), named),
                    from_index,
                    limit,
                ),
            decreases self.vestings.len() - i,
        {
            proof {
                assert(self@.vestings.take(i + 1).drop_last() =~= self@.vestings.take(i as int));
                lemma_page_push(
                    vestings_of(self@.vestings.take(i as int), named),
                    self@.vestings[i as int],
                    from_index,
                    limit,
                );
            }
            if belongs_to(&self.vestings[i], &beneficiary) {
                if matching >= from_index as usize && page.len() < limit as usize {
                    let copy = self.vestings[i].clone();
                    page.push(copy);
                }
                matching += 1;
            }
            i += 1;
        }
        proof {
            assert(self@.vestings.take(i as int) =~= self@.vestings);
        }
        page
    }

    fn get_vesting_by_id(&self, vesting_id: VestingId) -> (found: Result<Vesting, VestingError>) {
        match self.internal_get_vesting(vesting_id) {
            Some(vesting) => Ok(vesting),
            None => Err(VestingError::NotFound),
        }
    }

    fn get_claimable_amount(&self, vesting_id: VestingId, now: SecondTimeStamp) -> (amount: Result<
        Balance,
        VestingError,
    >) {
        match self.find_vesting(vesting_id) {
            Some(i) => claimable_of(&self.vestings[i], now),
            None => Err(VestingError::NotFound),
        }
    }

    fn get_all_claimable_amount(&self, beneficiary: Option<AccountId>, now: SecondTimeStamp) -> (
        amount: Result<Balance, VestingError>) {
        let ghost named = named_account(beneficiary);
        let mut total: Balance = 0;
        let mut i: usize = 0;
        while i < self.vestings.len()
            invariant
                i <= self.vestings.len(),
                self@.wf(),
                named == named_account(beneficiary),
                claimable_total(self@.vestings.take(i as int), named, now) == Ok::<
                    u128,
                    VestingError,
                >(total),
            decreases self.vestings.len() - i,
        {
            proof {
                assert(self@.vestings.take(i + 1).drop_last() =~= self@.vestings.take(i as int));
                lemma_released_bounded(self@.vestings[i as int], now);
            }
            if belongs_to(&self.vestings[i], &beneficiary) {
                let claimable: Balance = match claimable_of(&self.vestings[i], now) {
                    Ok(claimable) => claimable,
                    Err(error) => {
                        proof {
                            lemma_claimable_total_rejected(self@.vestings, named, now, i + 1);
                        }
                        return Err(error);
                    },
                };
                total = match total.checked_add(claimable) {
                    Some(sum) => sum,
                    None => {
                        proof {
                            lemma_claimable_total_rejected(self@.vestings, named, now, i + 1);
                        }
                        return Err(VestingError::ArithmeticOverflow);
                    },
                };
            }
            i += 1;
        }
        proof {
            assert(self@.vestings.take(i as int) =~= self@.vestings);
        }
        Ok(total)
    }
}

/// What can be claimed from `vesting` at `now`, frozen or not, unless more is
/// claimed from it than is released.
fn claimable_of(vesting: &Vesting, now: SecondTimeStamp) -> (amount: Result<Balance, VestingError>)
    requires
        vesting@.wf(),
    ensures
        vesting@.claimable_amount(now) < 0 ==> amount == Err::<Balance, VestingError>(
            VestingError::ArithmeticOverflow,
        ),
        vesting@.claimable_amount(now) >= 0 ==> amount == Ok::<Balance, VestingError>(
            vesting@.claimable_amount(now) as u128,
        ),
{
    let released: Balance = vesting.get_released_amount(now);
    let claimed: Balance = vesting.get_vesting_token_info().claimed_token_amount;
    if released < claimed {
        return Err(VestingError::ArithmeticOverflow);
    }
    Ok(released - claimed)
}

} // verus!
