use quickex::admin::{
    get_admin, has_admin, initialize, is_paused, require_not_paused, set_admin, set_paused,
    AdminState,
};
use quickex::types::{Error, Identity};
use quickex::QuickexContract;

#[test]
fn test_initialize_admin() {
    let mut state = AdminState::new();
    let admin = Identity { id: 1 };

    assert_eq!(initialize(&mut state, admin), Ok(()));

    assert_eq!(get_admin(&state), Some(admin));

    assert!(!is_paused(&state));
}

#[test]
fn test_get_admin_uninitialized() {
    let state = AdminState::new();
    assert_eq!(get_admin(&state), None);
    assert!(!has_admin(&state));
}

#[test]
fn test_initialize_twice_fails() {
    let mut state = AdminState::new();
    let admin1 = Identity { id: 1 };
    let admin2 = Identity { id: 2 };

    assert_eq!(initialize(&mut state, admin1), Ok(()));

    assert_eq!(initialize(&mut state, admin2), Err(Error::AlreadyInitialized));
    assert_eq!(get_admin(&state), Some(admin1));
}

#[test]
fn test_set_paused_by_admin() {
    let mut state = AdminState::new();
    let admin = Identity { id: 1 };

    assert_eq!(initialize(&mut state, admin), Ok(()));

    assert_eq!(set_paused(&mut state, admin, true), Ok(()));
    assert!(is_paused(&state));

    assert_eq!(set_paused(&mut state, admin, false), Ok(()));
    assert!(!is_paused(&state));
}

#[test]
fn test_set_paused_by_non_admin_fails() {
    let mut state = AdminState::new();
    let admin = Identity { id: 1 };
    let non_admin = Identity { id: 2 };

    assert_eq!(initialize(&mut state, admin), Ok(()));

    assert_eq!(set_paused(&mut state, non_admin, true), Err(Error::Unauthorized));
    assert!(!is_paused(&state));
}

#[test]
fn test_set_admin() {
    let mut state = AdminState::new();
    let admin = Identity { id: 1 };
    let new_admin = Identity { id: 2 };

    assert_eq!(initialize(&mut state, admin), Ok(()));

    assert_eq!(set_admin(&mut state, admin, new_admin), Ok(()));

    assert_eq!(get_admin(&state), Some(new_admin));

    assert_eq!(set_paused(&mut state, new_admin, true), Ok(()));
    assert!(is_paused(&state));
}

#[test]
fn test_set_admin_by_non_admin_fails() {
    let mut state = AdminState::new();
    let admin = Identity { id: 1 };
    let non_admin = Identity { id: 2 };
    let new_admin = Identity { id: 3 };

    assert_eq!(initialize(&mut state, admin), Ok(()));

    assert_eq!(set_admin(&mut state, non_admin, new_admin), Err(Error::Unauthorized));
    assert_eq!(get_admin(&state), Some(admin));
}

#[test]
fn test_old_admin_cannot_pause_after_transfer() {
    let mut state = AdminState::new();
    let admin = Identity { id: 1 };
    let new_admin = Identity { id: 2 };

    assert_eq!(initialize(&mut state, admin), Ok(()));

    assert_eq!(set_admin(&mut state, admin, new_admin), Ok(()));

    assert_eq!(set_paused(&mut state, admin, true), Err(Error::Unauthorized));
    assert!(!is_paused(&state));
}

#[test]
fn test_pause_guard() {
    let mut state = AdminState::new();
    let admin = Identity { id: 1 };

    assert_eq!(initialize(&mut state, admin), Ok(()));
    assert_eq!(require_not_paused(&state), Ok(()));

    assert_eq!(set_paused(&mut state, admin, true), Ok(()));
    assert_eq!(require_not_paused(&state), Err(Error::ContractPaused));

    assert_eq!(set_paused(&mut state, admin, false), Ok(()));
    assert_eq!(require_not_paused(&state), Ok(()));
}

#[test]
fn test_upgrade_by_admin() {
    let mut contract = QuickexContract::new();
    let admin = Identity { id: 1 };

    assert_eq!(initialize(&mut contract.admin, admin), Ok(()));

    let new_wasm_hash = vec![0u8; 32];

    let result = contract.upgrade(admin, &new_wasm_hash);

    assert_ne!(
        result,
        Err(Error::Unauthorized),
        "Upgrade failed with Unauthorized error when admin called it"
    );
    assert_eq!(result, Ok(()));
}

#[test]
fn test_upgrade_by_non_admin_fails() {
    let mut contract = QuickexContract::new();
    let admin = Identity { id: 1 };
    let non_admin = Identity { id: 2 };

    assert_eq!(initialize(&mut contract.admin, admin), Ok(()));

    let new_wasm_hash = vec![0u8; 32];

    assert_eq!(contract.upgrade(non_admin, &new_wasm_hash), Err(Error::Unauthorized));
}

#[test]
fn test_upgrade_without_admin_initialized_fails() {
    let contract = QuickexContract::new();
    let caller = Identity { id: 1 };

    let new_wasm_hash = vec![0u8; 32];

    assert_eq!(contract.upgrade(caller, &new_wasm_hash), Err(Error::Unauthorized));
}
