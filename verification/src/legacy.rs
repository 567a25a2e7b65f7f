//! What is owed to accounts from transfers that failed.
//!
//! When tokens could not be sent, their amount is credited here to the
//! account that should have received them. It stays until the account has it
//! paid out.

use crate::types::{AccountId, Balance, VestingError};
use vstd::prelude::*;

verus! {

/// What is owed to one account.
#[derive(Debug, Clone, PartialEq, Eq)]
pub struct LegacyBalance {
    pub account_id: AccountId,
    pub amount: Balance,
}

/// What is owed to every account. An account is entered with its first
/// failed transfer; of several entries for one account only the first counts.
#[derive(Debug, Clone, PartialEq, Eq)]
pub struct LegacyLedger {
    pub entries: Vec<LegacyBalance>,
}

/// Whether the entry at `i` is the first one for `account`.
pub open spec fn is_first_entry(entries: Seq<LegacyBalance>, account: Seq<char>, i: int) -> bool {
    &&& 0 <= i < entries.len()
    &&& entries[i].account_id@ == account
    &&& forall|j: int| 0 <= j < i ==> (#[trigger] entries[j]).account_id@ != account
}

/// The ledger that `entries` stand for: each account that is entered, with
/// the amount of its first entry.
pub open spec fn ledger_of(entries: Seq<LegacyBalance>) -> Map<Seq<char>, u128> {
    Map::new(
        |account: Seq<char>| exists|i: int| is_first_entry(entries, account, i),
        |account: Seq<char>| entries[choose|i: int| is_first_entry(entries, account, i)].amount,
    )
}

/// What `ledger` owes to `account`: nothing, where the account is not
/// entered.
pub open spec fn owed(ledger: Map<Seq<char>, u128>, account: Seq<char>) -> u128 {
    if ledger.dom().contains(account) {
        ledger[account]
    } else {
        0
    }
}

/// The first entry of an account is the one that the ledger shows.
pub proof fn lemma_first_entry_counts(entries: Seq<LegacyBalance>, account: Seq<char>, i: int)
    requires
        is_first_entry(entries, account, i),
    ensures
        ledger_of(entries).dom().contains(account),
        ledger_of(entries)[account] == entries[i].amount,
{
}

/// Where two lists of entries name the same accounts in the same places, an
/// entry is the first of its account in both or in neither.
proof fn lemma_same_accounts(
    before: Seq<LegacyBalance>,
    after: Seq<LegacyBalance>,
    account: Seq<char>,
    i: int,
)
    requires
        before.len() <= after.len(),
        forall|j: int|
            0 <= j < before.len() ==> (#[trigger] after[j]).account_id@ == before[j].account_id@,
        0 <= i < before.len(),
    ensures
        is_first_entry(before, account, i) <==> is_first_entry(after, account, i),
{
    if is_first_entry(after, account, i) {
        assert forall|j: int| 0 <= j < i implies (#[trigger] before[j]).account_id@ != account by {
            assert(after[j].account_id@ != account);
        }
    }
}

/// Setting the amount of the first entry of an account sets what the ledger
/// shows for that account, and nothing else.
pub proof fn lemma_set_first_entry(
    before: Seq<LegacyBalance>,
    after: Seq<LegacyBalance>,
    account: Seq<char>,
    i: int,
)
    requires
        is_first_entry(before, account, i),
        after.len() == before.len(),
        after[i].account_id@ == account,
        forall|j: int| 0 <= j < before.len() && j != i ==> after[j] == before[j],
    ensures
        ledger_of(after) == ledger_of(before).insert(account, after[i].amount),
{
    let expected = ledger_of(before).insert(account, after[i].amount);
    lemma_first_entry_counts(after, account, i);
    assert forall|other: Seq<char>| #[trigger]
        ledger_of(after).dom().contains(other) == expected.dom().contains(other) by {
        if other != account && ledger_of(before).dom().contains(other) {
            let k = choose|k: int| is_first_entry(before, other, k);
            lemma_same_accounts(before, after, other, k);
        }
        if other != account && ledger_of(after).dom().contains(other) {
            let k = choose|k: int| is_first_entry(after, other, k);
            lemma_same_accounts(before, after, other, k);
        }
    }
}

/// Entering an account that has no entry adds it to the ledger, and nothing
/// else.
pub proof fn lemma_push_entry(before: Seq<LegacyBalance>, entry: LegacyBalance)
    requires
        forall|j: int| 0 <= j < before.len() ==> (#[trigger] before[j]).account_id@
            != entry.account_id@,
    ensures
        ledger_of(before.push(entry)) == ledger_of(before).insert(
            entry.account_id@,
            entry.amount,
        ),
{
    let after = before.push(entry);
    let account = entry.account_id@;
    let expected = ledger_of(before).insert(account, entry.amount);
    lemma_first_entry_counts(after, account, before.len() as int);
    assert forall|other: Seq<char>| #[trigger]
        ledger_of(after).dom().contains(other) == expected.dom().contains(other) by {
        if other != account && ledger_of(before).dom().contains(other) {
            let k = choose|k: int| is_first_entry(before, other, k);
            lemma_same_accounts(before, after, other, k);
        }
        if other != account && ledger_of(after).dom().contains(other) {
            let k = choose|k: int| is_first_entry(after, other, k);
            lemma_same_accounts(before, after, other, k);
        }
    }
    assert forall|other: Seq<char>| ledger_of(after).dom().contains(other) implies #[trigger]
        ledger_of(after)[other] == expected[other] by {
        if other != account {
            let k = choose|k: int| is_first_entry(after, other, k);
            lemma_same_accounts(before, after, other, k);
        }
    }
}

impl View for LegacyLedger {
    type V = Map<Seq<char>, u128>;

    open spec fn view(&self) -> Map<Seq<char>, u128> {
        ledger_of(self.entries@)
    }
}

impl LegacyLedger {
    /// A ledger in which nothing is owed to anyone.
    pub fn new() -> (ledger: Self)
        ensures
            ledger@ == Map::<Seq<char>, u128>::empty(),
    {
        LegacyLedger { entries: Vec::new() }
    }

    /// The place of the first entry of `account`, if it has one.
    fn find(&self, account: &AccountId) -> (place: Option<usize>)
        ensures
            match place {
                Some(i) => is_first_entry(self.entries@, account@, i as int),
                None => forall|j: int|
                    0 <= j < self.entries@.len() ==> (#[trigger] self.entries@[j]).account_id@
                        != account@,
            },
    {
        let mut i: usize = 0;
        while i < self.entries.len()
            invariant
                i <= self.entries.len(),
                forall|j: int| 0 <= j < i ==> (#[trigger] self.entries@[j]).account_id@ != account@,
            decreases self.entries.len() - i,
        {
            if self.entries[i].account_id == *account {
                return Some(i);
            }
            i += 1;
        }
        None
    }

    /// What is owed to `account`.
    pub fn balance_of(&self, account: &AccountId) -> (amount: Balance)
        ensures
            amount == owed(self@, account@),
    {
        match self.find(account) {
            Some(i) => {
                self.entries[i].amount
            },
            None => {
                0
            },
        }
    }

    /// Adds `amount` to what is owed to `account`, unless the sum leaves the
    /// range of a balance.
    pub fn credit(&mut self, account: &AccountId, amount: Balance) -> (done: Result<
        (),
        VestingError,
    >)
        ensures
            owed(old(self)@, account@) + amount <= u128::MAX ==> done is Ok && final(self)@
                == old(self)@.insert(account@, (owed(old(self)@, account@) + amount) as u128),
            owed(old(self)@, account@) + amount > u128::MAX ==> done == Err::<(), VestingError>(
                VestingError::ArithmeticOverflow,
            ) && final(self)@ == old(self)@,
    {
        match self.find(account) {
            Some(i) => {
                match self.entries[i].amount.checked_add(amount) {
                    Some(sum) => {
                        self.entries[i].amount = sum;
                        proof {
                            lemma_set_first_entry(
                                old(self).entries@,
                                self.entries@,
                                account@,
                                i as int,
                            );
                        }
                        Ok(())
                    },
                    None => Err(VestingError::ArithmeticOverflow),
                }
            },
            None => {
                let entry = LegacyBalance { account_id: account.clone(), amount };
                proof {
                    lemma_push_entry(self.entries@, entry);
                }
                self.entries.push(entry);
                Ok(())
            },
        }
    }

    /// Takes out what is owed to `account`, and leaves nothing owed to it.
    /// It is rejected where nothing is owed.
    pub fn withdraw(&mut self, account: &AccountId) -> (taken: Result<Balance, VestingError>)
        ensures
            owed(old(self)@, account@) > 0 ==> taken == Ok::<Balance, VestingError>(
                owed(old(self)@, account@),
            ) && final(self)@ == old(self)@.insert(account@, 0),
            owed(old(self)@, account@) == 0 ==> taken == Err::<Balance, VestingError>(
                VestingError::NothingToWithdraw,
            ) && final(self)@ == old(self)@,
    {
        match self.find(account) {
            Some(i) => {
                let amount: Balance = self.entries[i].amount;
                if amount == 0 {
                    return Err(VestingError::NothingToWithdraw);
                }
                self.entries[i].amount = 0;
                proof {
                    lemma_set_first_entry(old(self).entries@, self.entries@, account@, i as int);
                }
                Ok(amount)
            },
            None => {
                Err(VestingError::NothingToWithdraw)
            },
        }
    }
}

} // verus!
