use nep141_token_vesting_contract::interfaces::{OwnerAction, Viewer};
use nep141_token_vesting_contract::vesting::linear::NaturalTimeLinearVesting;
use nep141_token_vesting_contract::vesting::traits::{
    Beneficiary, Claimable, Finish, NaturalTime, VestingAmount, VestingTokenInfoTrait,
};
use nep141_token_vesting_contract::vesting::{Vesting, VestingCreateParam, VestingTokenInfo};
use nep141_token_vesting_contract::{TokenVestingContract, VestingError};

fn bob() -> String {
    "bob".to_string()
}

fn linear(start_time: u64, end_time: u64, total: u128, claimed: u128) -> NaturalTimeLinearVesting {
    NaturalTimeLinearVesting {
        id: 0,
        beneficiary: bob(),
        start_time,
        end_time,
        vesting_token_info: VestingTokenInfo {
            claimed_token_amount: claimed,
            total_vesting_amount: total,
        },
        is_frozen: false,
        create_time: 1,
    }
}

#[test]
fn linear_test_linear() {
    let vesting = NaturalTimeLinearVesting {
        id: 0,
        beneficiary: bob(),
        start_time: 1,
        end_time: 10,
        vesting_token_info: VestingTokenInfo {
            claimed_token_amount: 0,
            total_vesting_amount: 100,
        },
        is_frozen: false,
        create_time: 1,
    };

    assert_eq!(vesting.get_claimable_amount(1000_000_00 / 1000_000_000), 0);
    assert_eq!(vesting.get_claimable_amount(1), 10);
    assert_eq!(vesting.get_claimable_amount(2), 20);
    assert_eq!(vesting.get_claimable_amount(3), 30);
    assert_eq!(vesting.get_claimable_amount(4), 40);
    assert_eq!(vesting.get_claimable_amount(5), 50);
    assert_eq!(vesting.get_claimable_amount(6), 60);
    assert_eq!(vesting.get_claimable_amount(7), 70);
    assert_eq!(vesting.get_claimable_amount(8), 80);
    assert_eq!(vesting.get_claimable_amount(9), 90);
    assert_eq!(vesting.get_claimable_amount(10), 100);
    assert_eq!(vesting.get_claimable_amount(11), 100);
}

#[test]
fn test_linear_test_linear() {
    let now: u64 = 1_700_000_000;
    let owner = "owner".to_string();
    let beneficiary = "beneficiary".to_string();
    let mut contract = TokenVestingContract::new(owner.clone(), "oct".to_string());

    contract
        .create_linear_vesting(&owner, beneficiary.clone(), now - 1440 - 1440, now - 1440, 100, now)
        .unwrap();

    let vesting = contract.get_vesting(0, 1, None).get(0).unwrap().clone();
    let claimable_amount = contract.get_claimable_amount(1, now).unwrap();

    assert_eq!(vesting.get_vesting_id(), 1, "vesting id should be 1");
    assert_eq!(claimable_amount, 100, "vesting claimable amount should be 100");
    assert_eq!(vesting.get_beneficiary().to_string(), beneficiary.to_string());
    assert_eq!(vesting.get_vesting_token_info().total_vesting_amount, 100);
    assert_eq!(vesting.get_vesting_token_info().claimed_token_amount, 0);
}

#[test]
fn linear_claimable_before_start_is_nothing() {
    let vesting = linear(100, 200, 1_000, 0);
    assert_eq!(vesting.get_unreleased_amount(0), 1_000);
    assert_eq!(vesting.get_released_amount(0), 0);
    assert_eq!(vesting.get_claimable_amount(0), 0);
    // One second before the start the whole period still lies ahead.
    assert_eq!(vesting.get_claimable_amount(99), 0);
    assert_eq!(vesting.get_claimable_amount(98), 0);
}

#[test]
fn linear_releases_one_part_at_the_start() {
    // 101 seconds from 100 to 200; at the start 100 of them lie ahead.
    let vesting = linear(100, 200, 1_010, 0);
    assert_eq!(vesting.get_period(), 101);
    assert_eq!(vesting.get_unreleased_amount(100), 1_000);
    assert_eq!(vesting.get_released_amount(100), 10);
    assert_eq!(vesting.get_released_amount(150), 510);
    assert_eq!(vesting.get_released_amount(200), 1_010);
}

#[test]
fn linear_rounds_the_unreleased_amount_down() {
    // 3 seconds; 10 * 2 / 3 = 6, 10 * 1 / 3 = 3.
    let vesting = linear(1, 3, 10, 0);
    assert_eq!(vesting.get_unreleased_amount(1), 6);
    assert_eq!(vesting.get_claimable_amount(1), 4);
    assert_eq!(vesting.get_unreleased_amount(2), 3);
    assert_eq!(vesting.get_claimable_amount(2), 7);
    assert_eq!(vesting.get_claimable_amount(3), 10);
}

#[test]
fn linear_is_exact_where_the_product_exceeds_128_bits() {
    let vesting = linear(0, 2, u128::MAX, 0);
    // u128::MAX / 3 is exact: 113427455640312821154458202477256070485.
    assert_eq!(
        vesting.get_unreleased_amount(1),
        113427455640312821154458202477256070485
    );
    assert_eq!(
        vesting.get_released_amount(1),
        226854911280625642308916404954512140970
    );
    assert_eq!(vesting.get_unreleased_amount(0), u128::MAX / 3 * 2);
    assert_eq!(vesting.get_released_amount(2), u128::MAX);
}

#[test]
fn linear_over_the_whole_range_of_time() {
    let vesting = linear(0, u64::MAX, u128::MAX, 0);
    assert_eq!(vesting.get_period(), 1u128 << 64);
    assert_eq!(vesting.get_released_amount(u64::MAX), u128::MAX);
    // At time 0 all but one of the 2^64 seconds lie ahead.
    // floor((2^128 - 1) * (2^64 - 1) / 2^64) = 2^128 - 2^64 - 1.
    assert_eq!(
        vesting.get_unreleased_amount(0),
        u128::MAX - (1u128 << 64)
    );
    assert_eq!(vesting.get_released_amount(0), 1u128 << 64);
    // Half way: 2^63 seconds lie ahead of 2^64.
    assert_eq!(
        vesting.get_unreleased_amount((1u64 << 63) - 1),
        u128::MAX / 2
    );
}

#[test]
fn linear_claimable_never_goes_down_and_ends_at_the_total() {
    let vesting = linear(10, 1_000, 999_983, 0);
    let mut last = 0;
    let mut now = 0;
    while now <= 1_100 {
        let claimable = vesting.get_claimable_amount(now);
        assert!(claimable >= last);
        assert!(claimable <= 999_983);
        if now >= 1_000 {
            assert_eq!(claimable, 999_983);
        }
        last = claimable;
        now += 1;
    }
}

#[test]
fn linear_claimable_is_what_is_released_less_what_is_claimed() {
    let vesting = linear(1, 10, 100, 10);
    assert_eq!(vesting.get_claimable_amount(10), 90);
    assert_eq!(vesting.get_claimable_amount(5), 40);
    assert_eq!(vesting.get_claimable_amount(1), 0);
}

#[test]
fn linear_times_and_finish() {
    let vesting = linear(5, 9, 100, 100);
    assert_eq!(vesting.get_start_time(), 5);
    assert_eq!(vesting.get_end_time(), 9);
    assert_eq!(vesting.get_period(), 5);
    assert!(!vesting.is_release_finish(8));
    assert!(vesting.is_release_finish(9));
    assert!(vesting.is_release_finish(10));
    assert!(vesting.is_vesting_finish());
    assert!(!linear(5, 9, 100, 99).is_vesting_finish());
}

#[test]
fn linear_claim_of_a_part() {
    let mut vesting = linear(1, 10, 100, 0);
    assert_eq!(vesting.claim(Some(30), 5), Ok(30));
    assert_eq!(vesting.vesting_token_info.claimed_token_amount, 30);
    assert_eq!(vesting.get_claimable_amount(5), 20);
    assert_eq!(
        vesting.claim(Some(21), 5),
        Err(VestingError::InsufficientClaimable)
    );
    assert_eq!(vesting.vesting_token_info.claimed_token_amount, 30);
    assert_eq!(vesting.claim(None, 5), Ok(20));
    assert_eq!(vesting.get_claimable_amount(5), 0);
    assert_eq!(vesting.claim(None, 5), Ok(0));
}

#[test]
fn claim_at_an_earlier_time_than_was_claimed_for_is_rejected() {
    let mut vesting = linear(1, 10, 100, 0);
    assert_eq!(vesting.claim(None, 10), Ok(100));
    assert_eq!(vesting.claim(None, 5), Err(VestingError::ArithmeticOverflow));
    assert_eq!(vesting.vesting_token_info.claimed_token_amount, 100);
}

#[test]
fn new_linear_vesting_must_end_after_it_starts() {
    let param = |start_time, end_time| VestingCreateParam::LinearVesting {
        beneficiary: bob(),
        start_time,
        end_time,
        total_vesting_amount: 100,
    };
    assert_eq!(
        Vesting::new(1, param(10, 10), 0),
        Err(VestingError::InvalidSchedule)
    );
    assert_eq!(
        Vesting::new(1, param(11, 10), 0),
        Err(VestingError::InvalidSchedule)
    );
    let made = Vesting::new(7, param(10, 11), 3).unwrap();
    assert!(made.is_well_formed());
    match made {
        Vesting::NaturalTimeLinearVesting(linear) => {
            assert_eq!(linear.id, 7);
            assert_eq!(linear.beneficiary, bob());
            assert_eq!(linear.start_time, 10);
            assert_eq!(linear.end_time, 11);
            assert_eq!(linear.vesting_token_info.total_vesting_amount, 100);
            assert_eq!(linear.vesting_token_info.claimed_token_amount, 0);
            assert!(!linear.is_frozen);
            assert_eq!(linear.create_time, 3);
        }
        Vesting::TimeCliffVesting(_) => panic!("should be NaturalTimeLinearVesting"),
    }
}

#[test]
fn what_is_claimed_may_reach_the_total_and_not_exceed_it() {
    let all_claimed = Vesting::NaturalTimeLinearVesting(linear(1, 10, 100, 100));
    assert!(all_claimed.is_well_formed());
    assert!(all_claimed.is_vesting_finish());
    assert_eq!(all_claimed.get_claimable_amount(10), 0);
    let one_short = Vesting::NaturalTimeLinearVesting(linear(1, 10, 100, 99));
    assert!(one_short.is_well_formed());
    assert!(!one_short.is_vesting_finish());
    assert_eq!(one_short.get_claimable_amount(10), 1);
    let over_claimed = Vesting::NaturalTimeLinearVesting(linear(1, 10, 100, 101));
    assert!(!over_claimed.is_well_formed());
    let backwards = Vesting::NaturalTimeLinearVesting(linear(10, 10, 100, 0));
    assert!(!backwards.is_well_formed());

    let mut vesting = linear(1, 10, 100, 0);
    vesting.set_claimed_token_amount(100);
    assert_eq!(vesting.vesting_token_info.claimed_token_amount, 100);
    assert_eq!(vesting.claim(None, 10), Ok(0));
    vesting.set_claimed_token_amount(99);
    assert_eq!(vesting.claim(Some(1), 10), Ok(1));
    assert_eq!(vesting.claim(Some(1), 10), Err(VestingError::InsufficientClaimable));
}
