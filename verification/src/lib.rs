//! Time-based release of one fungible token to beneficiaries, under the
//! control of a single owner.
//!
//! The crate is the accounting core of a vesting contract: release schedules,
//! the amount that can be claimed at a point in time, claims, freezing and
//! termination, and the bookkeeping around token transfers whose outcome is
//! only known later. Every function takes the current time and the calling
//! account as plain arguments and returns what has to be sent; it performs no
//! input or output itself.

pub mod beneficiary;
pub mod contract;
pub mod contract_viewers;
pub mod fungible_token;
pub mod interfaces;
pub mod laws;
pub mod legacy;
pub mod math;
pub mod owner;
pub mod preservation;
pub mod state;
pub mod types;
pub mod vesting;

pub use crate::contract::{PendingTransfer, TokenVestingContract, TransferRequest};
pub use crate::types::{AccountId, Balance, SecondTimeStamp, TransferId, VestingError, VestingId};
