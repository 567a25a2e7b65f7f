use nep141_token_vesting_contract::interfaces::{BeneficiaryAction, OwnerAction, Viewer};
use nep141_token_vesting_contract::vesting::cliff::{CliffVestingCheckpoint, TimeCliffVesting};
use nep141_token_vesting_contract::vesting::linear::NaturalTimeLinearVesting;
use nep141_token_vesting_contract::vesting::traits::{Frozen, VestingAmount};
use nep141_token_vesting_contract::vesting::{Vesting, VestingCreateParam, VestingTokenInfo};
use nep141_token_vesting_contract::{TokenVestingContract, VestingError};

const NOW: u64 = 1_700_000_000;

fn owner() -> String {
    "owner".to_string()
}

fn beneficiary() -> String {
    "beneficiary".to_string()
}

fn setup_vesting() -> TokenVestingContract {
    TokenVestingContract::new(owner(), "oct".to_string())
}

#[test]
fn test_create_linear_vesting() {
    let mut vesting_contract = setup_vesting();
    let now = NOW;

    vesting_contract
        .create_linear_vesting(&owner(), beneficiary(), now - 1440 - 1440, now - 1440, 100, now)
        .unwrap();

    let vesting = vesting_contract.get_vesting(0, 1, None).get(0).unwrap().clone();

    let linear_vesting = match vesting {
        Vesting::NaturalTimeLinearVesting(v) => v,
        Vesting::TimeCliffVesting(_) => {
            panic!("should be NaturalTimeLinearVesting")
        }
    };

    let expected_vesting = NaturalTimeLinearVesting {
        id: 1,
        beneficiary: beneficiary(),
        start_time: now - 1440 - 1440,
        end_time: now - 1440,
        vesting_token_info: VestingTokenInfo {
            claimed_token_amount: 0,
            total_vesting_amount: 100,
        },
        is_frozen: false,
        create_time: 0,
    };

    assert_eq!(expected_vesting.id, linear_vesting.id);
    assert_eq!(expected_vesting.beneficiary, linear_vesting.beneficiary);
    assert_eq!(expected_vesting.start_time, linear_vesting.start_time);
    assert_eq!(expected_vesting.end_time, linear_vesting.end_time);
    assert_eq!(
        expected_vesting.vesting_token_info.total_vesting_amount,
        linear_vesting.vesting_token_info.total_vesting_amount
    );
    assert_eq!(
        expected_vesting.vesting_token_info.claimed_token_amount,
        linear_vesting.vesting_token_info.claimed_token_amount
    );
    assert_eq!(expected_vesting.is_frozen, linear_vesting.is_frozen);
    assert_eq!(
        expected_vesting.get_claimable_amount(now),
        linear_vesting.get_claimable_amount(now)
    );
    assert_eq!(linear_vesting.create_time, now);
}

#[test]
fn test_create_cliff_vesting() {
    let mut vesting_contract = setup_vesting();
    let now = NOW;

    vesting_contract
        .create_cliff_vesting(
            &owner(),
            beneficiary(),
            vec![
                CliffVestingCheckpoint {
                    time: now - 1440,
                    amount: 1,
                },
                CliffVestingCheckpoint {
                    time: now,
                    amount: 1,
                },
                CliffVestingCheckpoint {
                    time: now + 1440,
                    amount: 1,
                },
            ],
            now,
        )
        .unwrap();

    let vesting = vesting_contract.get_vesting(0, 1, None).get(0).unwrap().clone();
    let cliff_vesting = match vesting {
        Vesting::NaturalTimeLinearVesting(_) => {
            panic!("should be cliff vesting")
        }
        Vesting::TimeCliffVesting(v) => v,
    };

    let expected_vesting = TimeCliffVesting {
        id: 1,
        beneficiary: beneficiary(),
        time_cliff_list: vec![
            CliffVestingCheckpoint {
                time: now - 1440,
                amount: 1,
            },
            CliffVestingCheckpoint {
                time: now,
                amount: 1,
            },
            CliffVestingCheckpoint {
                time: now + 1440,
                amount: 1,
            },
        ],
        vesting_token_info: VestingTokenInfo {
            claimed_token_amount: 0,
            total_vesting_amount: 3,
        },
        is_frozen: false,
        create_time: 0,
    };

    assert_eq!(expected_vesting.id, cliff_vesting.id);
    assert_eq!(expected_vesting.beneficiary, cliff_vesting.beneficiary);
    assert_eq!(
        expected_vesting.time_cliff_list,
        cliff_vesting.time_cliff_list
    );
    assert_eq!(
        expected_vesting.vesting_token_info.total_vesting_amount,
        cliff_vesting.vesting_token_info.total_vesting_amount
    );
    assert_eq!(
        expected_vesting.vesting_token_info.claimed_token_amount,
        cliff_vesting.vesting_token_info.claimed_token_amount
    );
    assert_eq!(expected_vesting.is_frozen, cliff_vesting.is_frozen);
    assert_eq!(
        expected_vesting.get_claimable_amount(now),
        cliff_vesting.get_claimable_amount(now)
    );
}

#[test]
fn test_freeze_unfreeze_vesting() {
    let mut vesting_contract = setup_vesting();
    let now = NOW;

    vesting_contract
        .create_linear_vesting(&owner(), beneficiary(), now - 1440 - 1440, now + 1440, 100, now)
        .unwrap();

    let vesting = vesting_contract.get_vesting(0, 1, None).get(0).unwrap().clone();

    assert_eq!(vesting.is_frozen(), false);

    let result = vesting_contract.freeze_vesting(&beneficiary(), vesting.get_vesting_id());
    assert_eq!(result.unwrap_err(), VestingError::Unauthorized);

    vesting_contract
        .freeze_vesting(&owner(), vesting.get_vesting_id())
        .unwrap();

    let vesting = vesting_contract.get_vesting(0, 1, None).get(0).unwrap().clone();

    assert_eq!(vesting.is_frozen(), true);

    assert_eq!(
        vesting_contract.claim(vesting.get_vesting_id()),
        Ok(beneficiary())
    );
    let result =
        vesting_contract.claim_callback(vesting.get_vesting_id(), None, 100, true, now);
    assert_eq!(result.unwrap_err(), VestingError::FrozenVesting);

    let result = vesting_contract.unfreeze_vesting(&beneficiary(), vesting.get_vesting_id());
    assert_eq!(result.unwrap_err(), VestingError::Unauthorized);
    vesting_contract
        .unfreeze_vesting(&owner(), vesting.get_vesting_id())
        .unwrap();
    let vesting = vesting_contract.get_vesting_by_id(1).unwrap();
    assert_eq!(vesting.is_frozen(), false);
    // 4321 seconds in all, 1440 of them ahead: 100 * 1440 / 4321 = 33 unreleased.
    let sent = vesting_contract.claim_callback(1, None, 100, true, now).unwrap();
    assert_eq!(sent.amount, 67);
}

#[test]
fn test_terminate_vesting() {
    let mut vesting_contract = setup_vesting();
    let now = NOW;

    vesting_contract
        .create_linear_vesting(&owner(), beneficiary(), now - 1440 - 1440, now + 1440, 100, now)
        .unwrap();

    let vesting = vesting_contract.get_vesting(0, 1, None).get(0).unwrap().clone();

    let result = vesting_contract.terminate_vesting(&beneficiary(), vesting.get_vesting_id());
    assert_eq!(result.unwrap_err(), VestingError::Unauthorized);
    assert_eq!(vesting_contract.vestings.len(), 1);

    vesting_contract
        .terminate_vesting(&owner(), vesting.get_vesting_id())
        .unwrap();

    let result1 = vesting_contract.claim(vesting.get_vesting_id());
    assert_eq!(result1.unwrap_err(), VestingError::NotFound);
    let result2 =
        vesting_contract.claim_callback(vesting.get_vesting_id(), None, 100, true, now);
    assert_eq!(result2.unwrap_err(), VestingError::NotFound);
}

#[test]
fn terminating_forfeits_what_was_not_claimed() {
    let mut contract = setup_vesting();
    contract
        .create_linear_vesting(&owner(), beneficiary(), 1, 10, 100, 0)
        .unwrap();
    let sent = contract.claim_callback(1, Some(30), 1_000, true, 5).unwrap();
    assert_eq!(sent.amount, 30);
    contract.terminate_vesting(&owner(), 1).unwrap();
    assert!(contract.vestings.is_empty());
    // Nothing is sent in place of the 70 that were left, and nothing is owed.
    assert_eq!(contract.pending_transfers.len(), 1);
    assert_eq!(contract.pending_transfers[0].amount, 30);
    assert_eq!(contract.get_legacy(&beneficiary()), 0);
    assert_eq!(
        contract.withdraw_legacy(&beneficiary(), None),
        Err(VestingError::NothingToWithdraw)
    );
    // The transfer that was on its way still ends well.
    assert_eq!(contract.ft_transfer_resolved(2, true, 6), Ok(vec![]));
    assert!(contract.is_well_formed());
}

#[test]
fn terminating_a_vesting_that_is_not_there_changes_nothing() {
    let mut contract = setup_vesting();
    contract
        .create_linear_vesting(&owner(), beneficiary(), 1, 10, 100, 0)
        .unwrap();
    let before = contract.clone();
    assert_eq!(contract.terminate_vesting(&owner(), 7), Ok(()));
    assert_eq!(contract, before);
}

#[test]
fn only_the_owner_creates() {
    let mut contract = setup_vesting();
    let before = contract.clone();
    assert_eq!(
        contract.create_linear_vesting(&beneficiary(), beneficiary(), 1, 10, 100, 0),
        Err(VestingError::Unauthorized)
    );
    assert_eq!(
        contract.create_cliff_vesting(&beneficiary(), beneficiary(), vec![], 0),
        Err(VestingError::Unauthorized)
    );
    assert_eq!(contract, before);
}

#[test]
fn an_invalid_schedule_is_rejected_and_uses_no_number() {
    let mut contract = setup_vesting();
    assert_eq!(
        contract.create_linear_vesting(&owner(), beneficiary(), 10, 10, 100, 0),
        Err(VestingError::InvalidSchedule)
    );
    assert_eq!(
        contract.create_cliff_vesting(
            &owner(),
            beneficiary(),
            vec![
                CliffVestingCheckpoint { time: 1, amount: u128::MAX },
                CliffVestingCheckpoint { time: 2, amount: 1 },
            ],
            0
        ),
        Err(VestingError::InvalidSchedule)
    );
    assert_eq!(contract.uuid, 0);
    assert_eq!(
        contract.create_linear_vesting(&owner(), beneficiary(), 10, 11, 100, 0),
        Ok(1)
    );
}

#[test]
fn numbers_grow_and_are_never_used_again() {
    let mut contract = setup_vesting();
    let first = contract
        .create_linear_vesting(&owner(), beneficiary(), 1, 10, 100, 0)
        .unwrap();
    let second = contract
        .create_cliff_vesting(
            &owner(),
            beneficiary(),
            vec![CliffVestingCheckpoint { time: 1, amount: 5 }],
            0,
        )
        .unwrap();
    assert_eq!((first, second), (1, 2));
    contract.terminate_vesting(&owner(), 2).unwrap();
    contract.terminate_vesting(&owner(), 1).unwrap();
    assert!(contract.vestings.is_empty());
    let third = contract
        .create_linear_vesting(&owner(), beneficiary(), 1, 10, 100, 0)
        .unwrap();
    assert_eq!(third, 3);
    // A transfer takes a number too.
    let sent = contract.claim_callback(3, None, 1_000, true, 10).unwrap();
    assert_eq!(sent.transfer_id, 4);
    let fourth = contract
        .internal_create_vesting(
            &owner(),
            VestingCreateParam::LinearVesting {
                beneficiary: beneficiary(),
                start_time: 1,
                end_time: 2,
                total_vesting_amount: 1,
            },
            0,
        )
        .unwrap();
    assert_eq!(fourth, 5);
    assert!(contract.is_well_formed());
}

#[test]
fn the_numbers_can_be_used_up() {
    let mut contract = setup_vesting();
    contract.uuid = u64::MAX - 1;
    assert_eq!(
        contract.create_linear_vesting(&owner(), beneficiary(), 1, 10, 100, 0),
        Ok(u64::MAX)
    );
    let before = contract.clone();
    assert_eq!(
        contract.create_linear_vesting(&owner(), beneficiary(), 1, 10, 100, 0),
        Err(VestingError::ArithmeticOverflow)
    );
    assert_eq!(
        contract.claim_callback(u64::MAX, None, 1_000, true, 10),
        Err(VestingError::ArithmeticOverflow)
    );
    assert_eq!(
        contract.claim_all_callback(beneficiary(), 1_000, true, 10),
        Err(VestingError::ArithmeticOverflow)
    );
    assert_eq!(contract, before);
}

#[test]
fn freezing_a_vesting_that_is_not_there() {
    let mut contract = setup_vesting();
    assert_eq!(
        contract.freeze_vesting(&owner(), 1),
        Err(VestingError::NotFound)
    );
    assert_eq!(
        contract.unfreeze_vesting(&owner(), 1),
        Err(VestingError::NotFound)
    );
    // Who is not the owner is told so first.
    assert_eq!(
        contract.freeze_vesting(&beneficiary(), 1),
        Err(VestingError::Unauthorized)
    );
}

#[test]
fn freezing_twice_is_freezing_once() {
    let mut contract = setup_vesting();
    contract
        .create_linear_vesting(&owner(), beneficiary(), 1, 10, 100, 0)
        .unwrap();
    contract.claim_callback(1, Some(10), 1_000, true, 5).unwrap();
    contract.freeze_vesting(&owner(), 1).unwrap();
    let once = contract.clone();
    contract.freeze_vesting(&owner(), 1).unwrap();
    assert_eq!(contract, once);
    let frozen = contract.get_vesting_by_id(1).unwrap();
    assert!(frozen.is_frozen());
    contract.unfreeze_vesting(&owner(), 1).unwrap();
    contract.unfreeze_vesting(&owner(), 1).unwrap();
    let vesting = contract.get_vesting_by_id(1).unwrap();
    assert!(!vesting.is_frozen());
    assert_eq!(contract.get_claimable_amount(1, 5), Ok(40));
}

#[test]
fn the_owner_hands_the_contract_on() {
    let mut contract = setup_vesting();
    assert_eq!(contract.get_owner(), owner());
    assert_eq!(
        contract.set_owner(&beneficiary(), beneficiary()),
        Err(VestingError::Unauthorized)
    );
    assert_eq!(contract.get_owner(), owner());
    assert_eq!(contract.set_owner(&owner(), "heir".to_string()), Ok(()));
    assert_eq!(contract.get_owner(), "heir".to_string());
    assert_eq!(
        contract.create_linear_vesting(&owner(), beneficiary(), 1, 10, 100, 0),
        Err(VestingError::Unauthorized)
    );
    assert_eq!(
        contract.create_linear_vesting(&"heir".to_string(), beneficiary(), 1, 10, 100, 0),
        Ok(1)
    );
}

#[test]
fn what_is_given_back_of_a_deposit() {
    // 25 bytes more at 4 each cost 100.
    assert_eq!(
        TokenVestingContract::internal_check_storage(100, 125, 4, 150),
        Ok(50)
    );
    assert_eq!(
        TokenVestingContract::internal_check_storage(100, 125, 4, 100),
        Ok(0)
    );
    assert_eq!(
        TokenVestingContract::internal_check_storage(100, 125, 4, 99),
        Err(VestingError::InsufficientDeposit)
    );
    // Storage that shrank costs nothing.
    assert_eq!(
        TokenVestingContract::internal_check_storage(125, 100, 4, 7),
        Ok(7)
    );
    assert_eq!(
        TokenVestingContract::internal_check_storage(0, 2, u128::MAX, u128::MAX),
        Err(VestingError::ArithmeticOverflow)
    );
}
