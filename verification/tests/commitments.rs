use quickex::commitment::compute_commitment_hash;
use quickex::types::Identity;

#[test]
fn test_commitment_cycle() {
    let owner = Identity { id: 13 };
    let amount = 1_000_000i128;
    let salt = b"random_salt".to_vec();

    // Create commitment.
    let commitment = compute_commitment_hash(&owner, amount, &salt);

    // Verify correct commitment.
    let recomputed = compute_commitment_hash(&owner, amount, &salt);
    assert_eq!(commitment, recomputed);

    // Verify incorrect amount.
    let bad_amount = compute_commitment_hash(&owner, 2_000_000i128, &salt);
    assert_ne!(commitment, bad_amount);

    // Verify incorrect salt.
    let bad_salt = b"wrong_salt".to_vec();
    let bad_salt_commitment = compute_commitment_hash(&owner, amount, &bad_salt);
    assert_ne!(commitment, bad_salt_commitment);
}

#[test]
fn test_commitment_determinism() {
    let recipient = Identity { id: 7 };
    let salt = b"salty".to_vec();
    let first = compute_commitment_hash(&recipient, 1, &salt);
    let second = compute_commitment_hash(&recipient, 1, &salt);
    assert_eq!(first, second);
}

#[test]
fn test_commitment_is_a_digest() {
    // The commitment is a real 32-byte digest, not the preimage echoed
    // back: it has digest length whatever the salt length, and differs
    // from the salt itself.
    let recipient = Identity { id: 7 };
    let empty = Vec::new();
    let long = vec![9u8; 100];

    let d1 = compute_commitment_hash(&recipient, 1, &empty);
    let d2 = compute_commitment_hash(&recipient, 1, &long);
    assert_eq!(d1.len(), 32);
    assert_eq!(d2.len(), 32);
    assert_ne!(d1, d2);
    assert_ne!(d2, long[0..32].to_vec());
}

#[test]
fn test_commitment_distinguishes_recipients() {
    let salt = b"shared_salt".to_vec();
    let a = compute_commitment_hash(&Identity { id: 1 }, 5, &salt);
    let b = compute_commitment_hash(&Identity { id: 2 }, 5, &salt);
    assert_ne!(a, b);
}

#[test]
fn test_commitment_negative_amount_distinct() {
    let recipient = Identity { id: 7 };
    let salt = b"sign_salt".to_vec();
    let pos = compute_commitment_hash(&recipient, 5, &salt);
    let neg = compute_commitment_hash(&recipient, -5, &salt);
    assert_ne!(pos, neg);
}
