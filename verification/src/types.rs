//! Plain value types shared by the whole crate.

use vstd::prelude::*;

verus! {

/// A point in time, in seconds since the Unix epoch.
pub type SecondTimeStamp = u64;

/// The number of a vesting. Numbers are handed out in increasing order.
pub type VestingId = u64;

/// The number of an outgoing token transfer. It ties the later report of the
/// transfer's outcome to the transfer.
pub type TransferId = u64;

/// An amount of tokens, in the token's smallest unit.
pub type Balance = u128;

/// The name of an account. Accounts are only ever compared and copied.
pub type AccountId = String;

/// Why an operation was rejected. A rejected operation changes nothing.
#[derive(Debug, Clone, Copy, PartialEq, Eq)]
pub enum VestingError {
    /// No vesting, or no pending transfer, has the given number.
    NotFound,
    /// The caller is neither the owner nor, where that is enough, the
    /// beneficiary.
    Unauthorized,
    /// The vesting is frozen and cannot be claimed from.
    FrozenVesting,
    /// More was asked for than can be claimed now.
    InsufficientClaimable,
    /// The schedule does not end after it starts, or its checkpoints add up
    /// to more than a balance can hold.
    InvalidSchedule,
    /// A balance or a counter would leave its range.
    ArithmeticOverflow,
    /// The receiving account is not registered with the token.
    NotRegistered,
    /// The contract holds fewer tokens than would have to be sent.
    InsufficientBalance,
    /// There is nothing to send.
    ZeroAmount,
    /// No tokens are owed to the account from failed transfers.
    NothingToWithdraw,
    /// The attached deposit does not cover the storage that was taken.
    InsufficientDeposit,
}

} // verus!
