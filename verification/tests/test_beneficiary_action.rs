use nep141_token_vesting_contract::interfaces::{BeneficiaryAction, OwnerAction, Viewer};
use nep141_token_vesting_contract::vesting::cliff::CliffVestingCheckpoint;
use nep141_token_vesting_contract::vesting::traits::{Beneficiary, VestingTokenInfoTrait};
use nep141_token_vesting_contract::{TokenVestingContract, VestingError};

const NOW: u64 = 1_700_000_000;

fn owner() -> String {
    "owner".to_string()
}

fn beneficiary() -> String {
    "beneficiary".to_string()
}

fn setup_vesting() -> TokenVestingContract {
    TokenVestingContract::new(owner(), "oct".to_string())
}

fn three_checkpoints(now: u64) -> Vec<CliffVestingCheckpoint> {
    vec![
        CliffVestingCheckpoint {
            time: now - 1440,
            amount: 1,
        },
        CliffVestingCheckpoint {
            time: now,
            amount: 1,
        },
        CliffVestingCheckpoint {
            time: now + 1440,
            amount: 1,
        },
    ]
}

#[test]
fn test_change_beneficiary() {
    let mut vesting_contract = setup_vesting();
    let now = NOW;

    vesting_contract
        .create_linear_vesting(&owner(), beneficiary(), now - 1440 - 1440, now - 1440, 100, now)
        .unwrap();

    let new_beneficiary = "new_beneficiary".to_string();

    vesting_contract
        .change_beneficiary(&beneficiary(), 1, new_beneficiary.clone())
        .unwrap();

    let vesting = vesting_contract.get_vesting_by_id(1).unwrap();
    assert_eq!(vesting.get_beneficiary(), new_beneficiary);
}

#[test]
fn test_claim() {
    let mut vesting_contract = setup_vesting();
    let now = NOW;

    vesting_contract
        .create_cliff_vesting(&owner(), beneficiary(), three_checkpoints(now), now)
        .unwrap();

    let claimable = vesting_contract.get_claimable_amount(1, now).unwrap();
    assert_eq!(claimable, 2, "claimable amount should be 2.");
    assert_eq!(vesting_contract.claim(1), Ok(beneficiary()));
    let sent = vesting_contract.claim_callback(1, None, 100, true, now).unwrap();
    assert_eq!(sent.amount, 2);
    assert_eq!(sent.receiver_id, beneficiary());
    assert_eq!(sent.token_id, "oct".to_string());
    let claimable = vesting_contract.get_claimable_amount(1, now).unwrap();
    assert_eq!(claimable, 0, "claimable amount should be 0.");
}

#[test]
fn test_claim_call() {
    let mut vesting_contract = setup_vesting();
    let now = NOW;

    vesting_contract
        .create_cliff_vesting(&owner(), beneficiary(), three_checkpoints(now), now)
        .unwrap();

    vesting_contract
        .create_linear_vesting(&owner(), beneficiary(), now - 1440 - 1440, now - 1440, 5, now)
        .unwrap();

    let mut contract_amount: u128 = 8;
    let mut beneficiary_amount: u128 = 0;

    let claimable = vesting_contract.get_claimable_amount(1, now).unwrap();
    assert_eq!(claimable, 2, "vesting #1 claimable amount should be 2.");
    let claimable = vesting_contract.get_claimable_amount(2, now).unwrap();
    assert_eq!(claimable, 5, "vesting #2 claimable amount should be 5.");

    let contract_amount_before_claim = contract_amount;
    let beneficiary_amount_before_claim = beneficiary_amount;
    let account = vesting_contract.claim_all(&beneficiary(), None);
    assert_eq!(account, beneficiary());
    let sent = vesting_contract
        .claim_all_callback(account, contract_amount, true, now)
        .unwrap()
        .unwrap();
    contract_amount -= sent.amount;
    beneficiary_amount += sent.amount;
    assert_eq!(
        vesting_contract.ft_transfer_resolved(sent.transfer_id, true, now),
        Ok(vec![2])
    );

    assert_eq!(contract_amount_before_claim - 7, contract_amount);
    assert_eq!(beneficiary_amount_before_claim + 7, beneficiary_amount);
}

#[test]
fn the_owner_hands_a_vesting_on_and_a_stranger_does_not() {
    let mut contract = setup_vesting();
    contract
        .create_linear_vesting(&owner(), beneficiary(), 1, 10, 100, 0)
        .unwrap();
    contract.claim_callback(1, Some(20), 1_000, true, 5).unwrap();
    let before = contract.clone();
    assert_eq!(
        contract.change_beneficiary(&"stranger".to_string(), 1, "stranger".to_string()),
        Err(VestingError::Unauthorized)
    );
    assert_eq!(contract, before);
    assert_eq!(
        contract.change_beneficiary(&owner(), 2, "carol".to_string()),
        Err(VestingError::NotFound)
    );
    // A vesting that is not there is missed before the caller is looked at.
    assert_eq!(
        contract.change_beneficiary(&"stranger".to_string(), 2, "carol".to_string()),
        Err(VestingError::NotFound)
    );
    assert_eq!(
        contract.change_beneficiary(&owner(), 1, "carol".to_string()),
        Ok(())
    );
    let vesting = contract.get_vesting_by_id(1).unwrap();
    assert_eq!(vesting.get_beneficiary(), "carol".to_string());
    // The amounts are as they were.
    assert_eq!(vesting.get_vesting_token_info().claimed_token_amount, 20);
    assert_eq!(vesting.get_vesting_token_info().total_vesting_amount, 100);
    // The former beneficiary has no say any more.
    assert_eq!(
        contract.change_beneficiary(&beneficiary(), 1, beneficiary()),
        Err(VestingError::Unauthorized)
    );
}

#[test]
fn claim_all_names_the_caller_where_no_one_is_named() {
    let contract = setup_vesting();
    assert_eq!(contract.claim_all(&beneficiary(), None), beneficiary());
    assert_eq!(
        contract.claim_all(&beneficiary(), Some("carol".to_string())),
        "carol".to_string()
    );
}
