use quickex::commitment::compute_commitment_hash;
use quickex::types::{EscrowStatus, Identity};
use quickex::QuickexContract;

fn deposit_under_commitment(
    contract: &mut QuickexContract,
    to: Identity,
    token: Identity,
    amount: i128,
    salt: &[u8],
) -> Vec<u8> {
    let commitment = compute_commitment_hash(&to, amount, &salt.to_vec());
    let depositor = Identity { id: 999 };
    let r = contract.deposit(depositor, commitment.clone(), token, amount, 0);
    assert_eq!(r, Ok(()));
    commitment
}

#[test]
fn test_get_commitment_state_pending() {
    let mut contract = QuickexContract::new();
    let token = Identity { id: 50 };
    let owner = Identity { id: 7 };
    let amount: i128 = 1000;
    let salt = b"test_salt".to_vec();

    let commitment = deposit_under_commitment(&mut contract, owner, token, amount, &salt);

    let state = contract.get_commitment_state(&commitment);
    assert_eq!(state, Some(EscrowStatus::Pending));
}

#[test]
fn test_get_commitment_state_spent() {
    let mut contract = QuickexContract::new();
    let token = Identity { id: 50 };
    let owner = Identity { id: 7 };
    let amount: i128 = 1000;
    let salt = b"test_salt_spent".to_vec();

    let commitment = deposit_under_commitment(&mut contract, owner, token, amount, &salt);
    assert_eq!(contract.withdraw(owner, amount, &salt), Ok(true));

    let state = contract.get_commitment_state(&commitment);
    assert_eq!(state, Some(EscrowStatus::Spent));
}

#[test]
fn test_get_commitment_state_not_found() {
    let contract = QuickexContract::new();
    let owner = Identity { id: 7 };
    let amount: i128 = 1000;
    let salt = b"nonexistent_salt".to_vec();

    let commitment = compute_commitment_hash(&owner, amount, &salt);
    let state = contract.get_commitment_state(&commitment);
    assert_eq!(state, None);
}

#[test]
fn test_verify_proof_view_valid() {
    let mut contract = QuickexContract::new();
    let token = Identity { id: 50 };
    let owner = Identity { id: 7 };
    let amount: i128 = 1000;
    let salt = b"valid_proof_salt".to_vec();

    deposit_under_commitment(&mut contract, owner, token, amount, &salt);

    let is_valid = contract.verify_proof(amount, &salt, owner);
    assert!(is_valid);
}

#[test]
fn test_verify_proof_view_wrong_amount() {
    let mut contract = QuickexContract::new();
    let token = Identity { id: 50 };
    let owner = Identity { id: 7 };
    let correct_amount: i128 = 1000;
    let wrong_amount: i128 = 500;
    let salt = b"amount_test_salt".to_vec();

    deposit_under_commitment(&mut contract, owner, token, correct_amount, &salt);

    let is_valid = contract.verify_proof(wrong_amount, &salt, owner);
    assert!(!is_valid);
}

#[test]
fn test_verify_proof_view_wrong_salt() {
    let mut contract = QuickexContract::new();
    let token = Identity { id: 50 };
    let owner = Identity { id: 7 };
    let amount: i128 = 1000;
    let correct_salt = b"correct_salt".to_vec();
    let wrong_salt = b"wrong_salt".to_vec();

    deposit_under_commitment(&mut contract, owner, token, amount, &correct_salt);

    let is_valid = contract.verify_proof(amount, &wrong_salt, owner);
    assert!(!is_valid);
}

#[test]
fn test_verify_proof_view_wrong_owner() {
    let mut contract = QuickexContract::new();
    let token = Identity { id: 50 };
    let correct_owner = Identity { id: 7 };
    let wrong_owner = Identity { id: 8 };
    let amount: i128 = 1000;
    let salt = b"owner_test_salt".to_vec();

    deposit_under_commitment(&mut contract, correct_owner, token, amount, &salt);

    let is_valid = contract.verify_proof(amount, &salt, wrong_owner);
    assert!(!is_valid);
}

#[test]
fn test_verify_proof_view_spent_commitment() {
    let mut contract = QuickexContract::new();
    let token = Identity { id: 50 };
    let owner = Identity { id: 7 };
    let amount: i128 = 1000;
    let salt = b"spent_commitment_salt".to_vec();

    deposit_under_commitment(&mut contract, owner, token, amount, &salt);
    assert_eq!(contract.withdraw(owner, amount, &salt), Ok(true));

    let is_valid = contract.verify_proof(amount, &salt, owner);
    assert!(!is_valid);
}

#[test]
fn test_verify_proof_view_nonexistent_commitment() {
    let contract = QuickexContract::new();
    let owner = Identity { id: 7 };
    let amount: i128 = 1000;
    let salt = b"nonexistent_proof_salt".to_vec();

    let is_valid = contract.verify_proof(amount, &salt, owner);
    assert!(!is_valid);
}

#[test]
fn test_get_escrow_details_found() {
    let mut contract = QuickexContract::new();
    let token = Identity { id: 50 };
    let owner = Identity { id: 7 };
    let amount: i128 = 1000;
    let salt = b"details_test_salt".to_vec();

    let commitment = deposit_under_commitment(&mut contract, owner, token, amount, &salt);

    let details = contract.get_escrow_details(&commitment);
    assert!(details.is_some());

    let entry = details.unwrap();
    assert_eq!(entry.amount, amount);
    assert_eq!(entry.token, token);
    assert_eq!(entry.status, EscrowStatus::Pending);
    assert_eq!(entry.commitment, commitment);
}

#[test]
fn test_get_escrow_details_not_found() {
    let contract = QuickexContract::new();
    let owner = Identity { id: 7 };
    let amount: i128 = 1000;
    let salt = b"not_found_salt".to_vec();

    let commitment = compute_commitment_hash(&owner, amount, &salt);
    let details = contract.get_escrow_details(&commitment);
    assert!(details.is_none());
}

#[test]
fn test_get_escrow_details_spent_status() {
    let mut contract = QuickexContract::new();
    let token = Identity { id: 50 };
    let owner = Identity { id: 7 };
    let amount: i128 = 1000;
    let salt = b"spent_details_salt".to_vec();

    let commitment = deposit_under_commitment(&mut contract, owner, token, amount, &salt);
    assert_eq!(contract.withdraw(owner, amount, &salt), Ok(true));

    let details = contract.get_escrow_details(&commitment);
    assert!(details.is_some());

    let retrieved_entry = details.unwrap();
    assert_eq!(retrieved_entry.status, EscrowStatus::Spent);
    assert_eq!(retrieved_entry.amount, amount);
    assert_eq!(retrieved_entry.token, token);
}
