//! The mathematical model of a vesting, and what follows from it.
//!
//! Every vesting, whatever its kind, is viewed as a [`VestingModel`]. The
//! amounts that are unreleased, released and claimable at a point in time are
//! defined here once, over that model, and the executable code is proved
//! against these definitions.

use crate::math::{lemma_mul_div_bounded, lemma_mul_div_monotonic, mul_div_spec};
use crate::types::VestingError;
use crate::vesting::cliff::CliffVestingCheckpoint;
use vstd::prelude::*;

verus! {

/// How the total amount of a vesting is released over time.
pub enum Schedule {
    /// Released in equal parts, one for each second from `start_time` to
    /// `end_time`, both included.
    Linear { start_time: u64, end_time: u64 },
    /// Released in steps: the amount of a checkpoint is released once its time
    /// has come. The checkpoints are in no particular order.
    Cliff { checkpoints: Seq<CliffVestingCheckpoint> },
}

/// One release schedule bound to a beneficiary and a total amount.
pub struct VestingModel {
    pub id: u64,
    pub beneficiary: Seq<char>,
    pub schedule: Schedule,
    pub total_amount: u128,
    pub claimed_amount: u128,
    pub is_frozen: bool,
    pub create_time: u64,
}

/// The number of seconds of a linear schedule.
pub open spec fn linear_period(start_time: u64, end_time: u64) -> int {
    end_time - start_time + 1
}

/// The seconds of a linear schedule that still lie ahead at `now`, never more
/// than the whole period.
pub open spec fn linear_remaining(start_time: u64, end_time: u64, now: u64) -> int {
    let ahead = if end_time <= now {
        0
    } else {
        end_time - now
    };
    if ahead <= linear_period(start_time, end_time) {
        ahead
    } else {
        linear_period(start_time, end_time)
    }
}

/// The part of `total` that a linear schedule has not released at `now`.
pub open spec fn linear_unreleased(total: u128, start_time: u64, end_time: u64, now: u64) -> int {
    mul_div_spec(
        total as int,
        linear_remaining(start_time, end_time, now),
        linear_period(start_time, end_time),
    )
}

/// The sum of the amounts of all checkpoints.
pub open spec fn checkpoints_total(checkpoints: Seq<CliffVestingCheckpoint>) -> int
    decreases checkpoints.len(),
{
    if checkpoints.len() == 0 {
        0
    } else {
        checkpoints_total(checkpoints.drop_last()) + checkpoints.last().amount
    }
}

/// The sum of the amounts of the checkpoints whose time lies after `now`.
pub open spec fn checkpoints_after(checkpoints: Seq<CliffVestingCheckpoint>, now: u64) -> int
    decreases checkpoints.len(),
{
    if checkpoints.len() == 0 {
        0
    } else {
        checkpoints_after(checkpoints.drop_last(), now) + if checkpoints.last().time > now {
            checkpoints.last().amount as int
        } else {
            0
        }
    }
}

/// Whether the time of every checkpoint has come at `now`.
pub open spec fn checkpoints_passed(checkpoints: Seq<CliffVestingCheckpoint>, now: u64) -> bool {
    forall|i: int| 0 <= i < checkpoints.len() ==> (#[trigger] checkpoints[i]).time <= now
}

impl Schedule {
    /// Whether the schedule can release `total`: a linear one ends after it
    /// starts, the checkpoints of a cliff one add up to `total`.
    pub open spec fn fits(self, total: u128) -> bool {
        match self {
            Schedule::Linear { start_time, end_time } => start_time < end_time,
            Schedule::Cliff { checkpoints } => checkpoints_total(checkpoints) == total,
        }
    }

    /// The part of `total` that is not released at `now`.
    pub open spec fn unreleased(self, total: u128, now: u64) -> int {
        match self {
            Schedule::Linear { start_time, end_time } => linear_unreleased(
                total,
                start_time,
                end_time,
                now,
            ),
            Schedule::Cliff { checkpoints } => checkpoints_after(checkpoints, now),
        }
    }

    /// Whether the schedule has run to its end at `now`.
    pub open spec fn finished(self, now: u64) -> bool {
        match self {
            Schedule::Linear { start_time, end_time } => end_time <= now,
            Schedule::Cliff { checkpoints } => checkpoints_passed(checkpoints, now),
        }
    }
}

impl VestingModel {
    /// What holds of every vesting: no more is claimed than there is, and the
    /// schedule fits the total amount.
    pub open spec fn wf(self) -> bool {
        &&& self.claimed_amount <= self.total_amount
        &&& self.schedule.fits(self.total_amount)
    }

    /// The amount that is not released at `now`.
    pub open spec fn unreleased_amount(self, now: u64) -> int {
        self.schedule.unreleased(self.total_amount, now)
    }

    /// The amount that is released at `now`, claimed or not.
    pub open spec fn released_amount(self, now: u64) -> int {
        self.total_amount - self.unreleased_amount(now)
    }

    /// The amount that is released at `now` and not claimed yet.
    pub open spec fn claimable_amount(self, now: u64) -> int {
        self.released_amount(now) - self.claimed_amount
    }

    /// Whether the schedule has run to its end at `now`.
    pub open spec fn release_finished(self, now: u64) -> bool {
        self.schedule.finished(now)
    }

    /// Whether the whole amount has been claimed.
    pub open spec fn vesting_finished(self) -> bool {
        self.total_amount == self.claimed_amount
    }

    /// Whether the vesting has nothing left to give at `now`: all of it is
    /// released and all of it is claimed.
    pub open spec fn complete(self, now: u64) -> bool {
        &&& self.released_amount(now) == self.total_amount
        &&& self.claimed_amount == self.total_amount
    }

    /// The same vesting, frozen or not.
    pub open spec fn with_frozen(self, frozen: bool) -> VestingModel {
        VestingModel { is_frozen: frozen, ..self }
    }

    /// The same vesting in the hands of another beneficiary.
    pub open spec fn with_beneficiary(self, account: Seq<char>) -> VestingModel {
        VestingModel { beneficiary: account, ..self }
    }

    /// The same vesting with another claimed amount.
    pub open spec fn with_claimed(self, amount: u128) -> VestingModel {
        VestingModel { claimed_amount: amount, ..self }
    }

    /// What a claim at `now` gives: the amount granted, or why it is rejected.
    ///
    /// A frozen vesting gives nothing. Without a requested amount everything
    /// claimable is granted; a requested amount is granted if it is claimable.
    pub open spec fn claim_outcome(self, requested: Option<u128>, now: u64) -> Result<
        u128,
        VestingError,
    > {
        if self.is_frozen {
            Err(VestingError::FrozenVesting)
        } else if self.claimable_amount(now) < 0 {
            Err(VestingError::ArithmeticOverflow)
        } else {
            match requested {
                Some(amount) => if amount > self.claimable_amount(now) {
                    Err(VestingError::InsufficientClaimable)
                } else {
                    Ok(amount)
                },
                None => Ok(self.claimable_amount(now) as u128),
            }
        }
    }

    /// The vesting after a claim at `now`: the granted amount is added to the
    /// claimed amount; a rejected claim changes nothing.
    pub open spec fn after_claim(self, requested: Option<u128>, now: u64) -> VestingModel {
        match self.claim_outcome(requested, now) {
            Ok(granted) => self.with_claimed((self.claimed_amount + granted) as u128),
            Err(_) => self,
        }
    }
}

/// The checkpoints after `now` never add up to more than all of them.
pub proof fn lemma_checkpoints_after_bounded(checkpoints: Seq<CliffVestingCheckpoint>, now: u64)
    ensures
        0 <= checkpoints_after(checkpoints, now) <= checkpoints_total(checkpoints),
    decreases checkpoints.len(),
{
    if checkpoints.len() > 0 {
        lemma_checkpoints_after_bounded(checkpoints.drop_last(), now);
    }
}

/// As time goes on, fewer checkpoints lie ahead.
pub proof fn lemma_checkpoints_after_monotonic(
    checkpoints: Seq<CliffVestingCheckpoint>,
    earlier: u64,
    later: u64,
)
    requires
        earlier <= later,
    ensures
        checkpoints_after(checkpoints, later) <= checkpoints_after(checkpoints, earlier),
    decreases checkpoints.len(),
{
    if checkpoints.len() > 0 {
        lemma_checkpoints_after_monotonic(checkpoints.drop_last(), earlier, later);
    }
}

/// Once the time of every checkpoint has come, none lies ahead.
pub proof fn lemma_checkpoints_passed_none_after(checkpoints: Seq<CliffVestingCheckpoint>, now: u64)
    requires
        checkpoints_passed(checkpoints, now),
    ensures
        checkpoints_after(checkpoints, now) == 0,
    decreases checkpoints.len(),
{
    if checkpoints.len() > 0 {
        lemma_checkpoints_passed_none_after(checkpoints.drop_last(), now);
    }
}

/// A prefix of the checkpoints adds up to no more than all of them.
pub proof fn lemma_checkpoints_total_prefix(checkpoints: Seq<CliffVestingCheckpoint>, n: int)
    requires
        0 <= n <= checkpoints.len(),
    ensures
        0 <= checkpoints_total(checkpoints.take(n)) <= checkpoints_total(checkpoints),
    decreases checkpoints.len() - n,
{
    if n == checkpoints.len() {
        assert(checkpoints.take(n) =~= checkpoints);
        lemma_checkpoints_after_bounded(checkpoints, 0);
    } else {
        lemma_checkpoints_total_prefix(checkpoints, n + 1);
        assert(checkpoints.take(n + 1).drop_last() =~= checkpoints.take(n));
        lemma_checkpoints_after_bounded(checkpoints.take(n), 0);
    }
}

/// The unreleased and the released amount of a vesting lie between nothing
/// and its total amount, at every point in time.
pub proof fn lemma_released_bounded(vesting: VestingModel, now: u64)
    requires
        vesting.wf(),
    ensures
        0 <= vesting.unreleased_amount(now) <= vesting.total_amount,
        0 <= vesting.released_amount(now) <= vesting.total_amount,
{
    match vesting.schedule {
        Schedule::Linear { start_time, end_time } => {
            lemma_mul_div_bounded(
                vesting.total_amount as int,
                linear_remaining(start_time, end_time, now),
                linear_period(start_time, end_time),
            );
        },
        Schedule::Cliff { checkpoints } => {
            lemma_checkpoints_after_bounded(checkpoints, now);
        },
    }
}

/// The released amount of a vesting never goes down as time goes on.
pub proof fn lemma_released_monotonic(vesting: VestingModel, earlier: u64, later: u64)
    requires
        vesting.wf(),
        earlier <= later,
    ensures
        vesting.released_amount(earlier) <= vesting.released_amount(later),
{
    match vesting.schedule {
        Schedule::Linear { start_time, end_time } => {
            lemma_mul_div_monotonic(
                vesting.total_amount as int,
                linear_remaining(start_time, end_time, later),
                linear_remaining(start_time, end_time, earlier),
                linear_period(start_time, end_time),
            );
        },
        Schedule::Cliff { checkpoints } => {
            lemma_checkpoints_after_monotonic(checkpoints, earlier, later);
        },
    }
}

/// Once the schedule of a vesting has run to its end, the whole amount is
/// released.
pub proof fn lemma_finished_releases_all(vesting: VestingModel, now: u64)
    requires
        vesting.wf(),
        vesting.release_finished(now),
    ensures
        vesting.released_amount(now) == vesting.total_amount,
{
    match vesting.schedule {
        Schedule::Linear { start_time, end_time } => {
            assert(vesting.total_amount * 0 == 0);
        },
        Schedule::Cliff { checkpoints } => {
            lemma_checkpoints_passed_none_after(checkpoints, now);
        },
    }
}

/// A claim keeps a vesting well formed, and grants no more than is claimable.
pub proof fn lemma_claim_keeps_wf(vesting: VestingModel, requested: Option<u128>, now: u64)
    requires
        vesting.wf(),
    ensures
        vesting.after_claim(requested, now).wf(),
        vesting.claim_outcome(requested, now) matches Ok(granted) ==> {
            &&& granted <= vesting.claimable_amount(now)
            &&& vesting.claimed_amount + granted <= vesting.released_amount(now)
            &&& vesting.after_claim(requested, now).claimed_amount == vesting.claimed_amount
                + granted
        },
{
    lemma_released_bounded(vesting, now);
}

} // verus!
