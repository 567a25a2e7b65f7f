use nep141_token_vesting_contract::interfaces::{BeneficiaryAction, OwnerAction, Viewer};
use nep141_token_vesting_contract::vesting::cliff::CliffVestingCheckpoint;
use nep141_token_vesting_contract::vesting::traits::VestingTokenInfoTrait;
use nep141_token_vesting_contract::{TokenVestingContract, TransferRequest, VestingError};

const NOW: u64 = 1_700_000_000;

fn owner() -> String {
    "owner".to_string()
}

fn beneficiary() -> String {
    "beneficiary".to_string()
}

fn setup_vesting() -> TokenVestingContract {
    TokenVestingContract::new(owner(), "oct".to_string())
}

fn claimed(contract: &TokenVestingContract, id: u64) -> u128 {
    contract
        .get_vesting_by_id(id)
        .unwrap()
        .get_vesting_token_info()
        .claimed_token_amount
}

/// A cliff vesting with 2 claimable at `NOW`, then a linear one with 5.
fn two_vestings() -> TokenVestingContract {
    let mut contract = setup_vesting();
    let now = NOW;
    contract
        .create_cliff_vesting(
            &owner(),
            beneficiary(),
            vec![
                CliffVestingCheckpoint {
                    time: now - 1440,
                    amount: 1,
                },
                CliffVestingCheckpoint {
                    time: now,
                    amount: 1,
                },
                CliffVestingCheckpoint {
                    time: now + 1440,
                    amount: 1,
                },
            ],
            now,
        )
        .unwrap();
    contract
        .create_linear_vesting(&owner(), beneficiary(), now - 1440 - 1440, now - 1440, 5, now)
        .unwrap();
    contract
}

#[test]
fn test_claim_test_cliff() {
    let mut vesting_contract = two_vestings();
    let now = NOW;

    let mut contract_amount: u128 = 8;
    let mut beneficiary_amount: u128 = 0;

    let claimable = vesting_contract.get_claimable_amount(1, now).unwrap();
    assert_eq!(claimable, 2, "vesting #1 claimable amount should be 2.");
    let claimable = vesting_contract.get_claimable_amount(2, now).unwrap();
    assert_eq!(claimable, 5, "vesting #2 claimable amount should be 5.");

    let contract_amount_before_claim = contract_amount;
    let beneficiary_amount_before_claim = beneficiary_amount;
    let account = vesting_contract.claim_all(&beneficiary(), None);
    let sent = vesting_contract
        .claim_all_callback(account, contract_amount, true, now)
        .unwrap()
        .unwrap();
    contract_amount -= sent.amount;
    beneficiary_amount += sent.amount;

    assert_eq!(contract_amount_before_claim - 7, contract_amount);
    assert_eq!(beneficiary_amount_before_claim + 7, beneficiary_amount);
}

#[test]
fn claim_all_sends_one_sum_and_counts_each_part_as_claimed() {
    let mut contract = two_vestings();
    let sent = contract
        .claim_all_callback(beneficiary(), 7, true, NOW)
        .unwrap();
    assert_eq!(
        sent,
        Some(TransferRequest {
            transfer_id: 3,
            receiver_id: beneficiary(),
            token_id: "oct".to_string(),
            amount: 7,
        })
    );
    assert_eq!(claimed(&contract, 1), 2);
    assert_eq!(claimed(&contract, 2), 5);
    assert_eq!(contract.pending_transfers.len(), 1);
    assert_eq!(contract.pending_transfers[0].transfer_id, 3);
    assert_eq!(contract.pending_transfers[0].amount, 7);
    assert_eq!(contract.pending_transfers[0].origin_vestings, vec![1, 2]);
    assert_eq!(contract.get_all_claimable_amount(Some(beneficiary()), NOW), Ok(0));
    assert!(contract.is_well_formed());
    // Only the linear vesting has nothing left to give.
    assert_eq!(contract.ft_transfer_resolved(3, true, NOW), Ok(vec![2]));
    assert_eq!(contract.vestings.len(), 1);
    assert_eq!(claimed(&contract, 1), 2);
}

#[test]
fn claim_all_leaves_the_vestings_of_others_alone() {
    let mut contract = two_vestings();
    contract
        .create_linear_vesting(&owner(), "carol".to_string(), 1, 10, 40, NOW)
        .unwrap();
    let sent = contract
        .claim_all_callback(beneficiary(), 100, true, NOW)
        .unwrap()
        .unwrap();
    assert_eq!(sent.amount, 7);
    assert_eq!(claimed(&contract, 3), 0);
    assert_eq!(contract.get_claimable_amount(3, NOW), Ok(40));
}

#[test]
fn claim_all_with_nothing_claimable_sends_nothing() {
    let mut contract = two_vestings();
    contract.claim_all_callback(beneficiary(), 7, true, NOW).unwrap();
    let before = contract.clone();
    assert_eq!(contract.claim_all_callback(beneficiary(), 0, true, NOW), Ok(None));
    assert_eq!(contract, before);
    assert_eq!(
        contract.claim_all_callback("nobody".to_string(), 0, true, NOW),
        Ok(None)
    );
    assert_eq!(contract, before);
}

#[test]
fn claim_all_is_all_or_nothing() {
    let mut contract = two_vestings();
    contract.freeze_vesting(&owner(), 2).unwrap();
    let before = contract.clone();
    assert_eq!(
        contract.claim_all_callback(beneficiary(), 100, true, NOW),
        Err(VestingError::FrozenVesting)
    );
    assert_eq!(contract, before);
    contract.unfreeze_vesting(&owner(), 2).unwrap();
    let before = contract.clone();
    assert_eq!(
        contract.claim_all_callback(beneficiary(), 6, true, NOW),
        Err(VestingError::InsufficientBalance)
    );
    assert_eq!(
        contract.claim_all_callback(beneficiary(), 100, false, NOW),
        Err(VestingError::NotRegistered)
    );
    assert_eq!(contract, before);
}

#[test]
fn claim_all_rejects_a_sum_that_no_balance_can_hold() {
    let mut contract = setup_vesting();
    contract
        .create_linear_vesting(&owner(), beneficiary(), 1, 2, u128::MAX, 0)
        .unwrap();
    contract
        .create_linear_vesting(&owner(), beneficiary(), 1, 2, 1, 0)
        .unwrap();
    let before = contract.clone();
    assert_eq!(
        contract.claim_all_callback(beneficiary(), u128::MAX, true, 2),
        Err(VestingError::ArithmeticOverflow)
    );
    assert_eq!(
        contract.get_all_claimable_amount(None, 2),
        Err(VestingError::ArithmeticOverflow)
    );
    assert_eq!(contract, before);
}

#[test]
fn claiming_more_than_is_claimable_is_rejected() {
    let mut contract = setup_vesting();
    contract
        .create_linear_vesting(&owner(), beneficiary(), 1, 10, 100, 0)
        .unwrap();
    let before = contract.clone();
    assert_eq!(contract.get_claimable_amount(1, 5), Ok(50));
    assert_eq!(
        contract.claim_callback(1, Some(51), 1_000, true, 5),
        Err(VestingError::InsufficientClaimable)
    );
    assert_eq!(contract, before);
    let sent = contract.claim_callback(1, Some(50), 1_000, true, 5).unwrap();
    assert_eq!(sent.amount, 50);
    assert_eq!(sent.transfer_id, 2);
    assert_eq!(claimed(&contract, 1), 50);
    assert_eq!(contract.get_claimable_amount(1, 5), Ok(0));
}

#[test]
fn what_is_granted_is_what_was_asked_for() {
    let mut contract = setup_vesting();
    contract
        .create_linear_vesting(&owner(), beneficiary(), 1, 10, 100, 0)
        .unwrap();
    let sent = contract.claim_callback(1, Some(20), 1_000, true, 5).unwrap();
    assert_eq!(sent.amount, 20);
    assert_eq!(claimed(&contract, 1), 20);
    assert_eq!(contract.get_claimable_amount(1, 5), Ok(30));
}

#[test]
fn a_claim_of_nothing_is_rejected() {
    let mut contract = setup_vesting();
    contract
        .create_linear_vesting(&owner(), beneficiary(), 10, 20, 100, 0)
        .unwrap();
    let before = contract.clone();
    assert_eq!(
        contract.claim_callback(1, None, 1_000, true, 5),
        Err(VestingError::ZeroAmount)
    );
    assert_eq!(
        contract.claim_callback(1, Some(0), 1_000, true, 15),
        Err(VestingError::ZeroAmount)
    );
    assert_eq!(contract, before);
}

#[test]
fn a_claim_needs_a_registered_beneficiary_and_enough_tokens() {
    let mut contract = setup_vesting();
    contract
        .create_linear_vesting(&owner(), beneficiary(), 1, 10, 100, 0)
        .unwrap();
    let before = contract.clone();
    assert_eq!(
        contract.claim_callback(1, None, 1_000, false, 10),
        Err(VestingError::NotRegistered)
    );
    assert_eq!(
        contract.claim_callback(1, None, 99, true, 10),
        Err(VestingError::InsufficientBalance)
    );
    assert_eq!(
        contract.claim_callback(2, None, 1_000, true, 10),
        Err(VestingError::NotFound)
    );
    assert_eq!(contract, before);
    // What the contract holds need only cover what is granted.
    let sent = contract.claim_callback(1, Some(40), 40, true, 10).unwrap();
    assert_eq!(sent.amount, 40);
}

#[test]
fn a_claim_for_an_earlier_time_is_rejected() {
    let mut contract = setup_vesting();
    contract
        .create_linear_vesting(&owner(), beneficiary(), 1, 10, 100, 0)
        .unwrap();
    contract.claim_callback(1, None, 1_000, true, 10).unwrap();
    let before = contract.clone();
    assert_eq!(
        contract.get_claimable_amount(1, 5),
        Err(VestingError::ArithmeticOverflow)
    );
    assert_eq!(
        contract.claim_callback(1, None, 1_000, true, 5),
        Err(VestingError::ArithmeticOverflow)
    );
    assert_eq!(
        contract.get_all_claimable_amount(None, 5),
        Err(VestingError::ArithmeticOverflow)
    );
    assert_eq!(contract, before);
}
