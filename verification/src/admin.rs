//! Admin and pause access control.
//!
//! A single global admin identity gates privileged operations; a paused flag
//! can disable guarded operations. The state lives in an explicit
//! [`AdminState`] value owned by the engine instance, so every operation
//! takes it by reference and isolated instances can be tested side by side.
//!
//! Callers are identified by an [`Identity`] that the surrounding system has
//! already authenticated against its oracle; the library trusts the value it
//! is handed and checks only whether that identity is the stored admin.

use vstd::prelude::*;

use crate::types::{Error, Identity};

verus! {

/// The access-control state: the optional admin identity and the paused
/// flag. `admin` is `None` until `initialize` seeds it exactly once.
#[derive(Clone, Copy, Debug)]
pub struct AdminState {
    pub admin: Option<Identity>,
    pub paused: bool,
}

impl AdminState {
    /// The state before initialization: no admin, not paused.
    pub fn new() -> (s: AdminState)
        ensures
            s.admin is None,
            !s.paused,
    {
        AdminState { admin: None, paused: false }
    }
}

/// Whether `caller` may perform admin-gated operations on state `s`: an
/// admin is set and `caller` is that admin.
pub open spec fn admin_authorized(s: AdminState, caller: Identity) -> bool {
    s.admin == Some(caller)
}

/// What `initialize` does to state `s`: seeds the admin and clears the
/// paused flag, unless an admin is already set.
pub open spec fn initialize_spec(s: AdminState, admin: Identity) -> (AdminState, Result<
    (),
    Error,
>) {
    if s.admin is Some {
        (s, Err(Error::AlreadyInitialized))
    } else {
        (AdminState { admin: Some(admin), paused: false }, Ok(()))
    }
}

/// What `set_admin` does to state `s`: replaces the admin, if `caller` is
/// the current admin; otherwise leaves the state unchanged and reports
/// `Unauthorized`.
pub open spec fn set_admin_spec(s: AdminState, caller: Identity, new_admin: Identity) -> (
    AdminState,
    Result<(), Error>,
) {
    if admin_authorized(s, caller) {
        (AdminState { admin: Some(new_admin), paused: s.paused }, Ok(()))
    } else {
        (s, Err(Error::Unauthorized))
    }
}

/// What `set_paused` does to state `s`: sets the paused flag, if `caller`
/// is the current admin; otherwise leaves the state unchanged and reports
/// `Unauthorized`.
pub open spec fn set_paused_spec(s: AdminState, caller: Identity, new_state: bool) -> (
    AdminState,
    Result<(), Error>,
) {
    if admin_authorized(s, caller) {
        (AdminState { admin: s.admin, paused: new_state }, Ok(()))
    } else {
        (s, Err(Error::Unauthorized))
    }
}

/// One-shot initialization: seeds `admin` and `paused = false`, and fails
/// with `AlreadyInitialized` ever after.
pub fn initialize(state: &mut AdminState, admin: Identity) -> (r: Result<(), Error>)
    ensures
        *final(state) == initialize_spec(*old(state), admin).0,
        r == initialize_spec(*old(state), admin).1,
{
    if has_admin(state) {
        return Err(Error::AlreadyInitialized);
    }
    *state = AdminState { admin: Some(admin), paused: false };
    Ok(())
}

/// Whether an admin has been set.
pub fn has_admin(state: &AdminState) -> (r: bool)
    ensures
        r == (state.admin is Some),
{
    match state.admin {
        Some(_) => true,
        None => false,
    }
}

/// The current admin, or `None` before initialization.
pub fn get_admin(state: &AdminState) -> (r: Option<Identity>)
    ensures
        r == state.admin,
{
    state.admin
}

/// Checks that `caller` is the current admin. Fails with `Unauthorized`
/// both when no admin is set and when `caller` is not the admin; the two
/// cases are indistinguishable to the caller by design.
pub fn require_admin(state: &AdminState, caller: &Identity) -> (r: Result<(), Error>)
    ensures
        r == (if admin_authorized(*state, *caller) {
            Ok::<(), Error>(())
        } else {
            Err::<(), Error>(Error::Unauthorized)
        }),
{
    match state.admin {
        Some(admin) if admin == *caller => Ok(()),
        _ => Err(Error::Unauthorized),
    }
}

/// Replaces the admin (admin only). On success the surrounding system
/// publishes an admin-changed event carrying the old and new identities.
pub fn set_admin(state: &mut AdminState, caller: Identity, new_admin: Identity) -> (r: Result<
    (),
    Error,
>)
    ensures
        *final(state) == set_admin_spec(*old(state), caller, new_admin).0,
        r == set_admin_spec(*old(state), caller, new_admin).1,
{
    let check = require_admin(state, &caller);
    if let Err(e) = check {
        return Err(e);
    }
    *state = AdminState { admin: Some(new_admin), paused: state.paused };
    Ok(())
}

/// Sets the paused flag (admin only). On success the surrounding system
/// publishes a pause-changed event carrying the caller and the new flag,
/// even when the new flag equals the old one: the emission follows the
/// successful authorization, not an actual flip.
pub fn set_paused(state: &mut AdminState, caller: Identity, new_state: bool) -> (r: Result<
    (),
    Error,
>)
    ensures
        *final(state) == set_paused_spec(*old(state), caller, new_state).0,
        r == set_paused_spec(*old(state), caller, new_state).1,
{
    let check = require_admin(state, &caller);
    if let Err(e) = check {
        return Err(e);
    }
    *state = AdminState { admin: state.admin, paused: new_state };
    Ok(())
}

/// Whether the contract is paused.
pub fn is_paused(state: &AdminState) -> (r: bool)
    ensures
        r == state.paused,
{
    state.paused
}

/// Guard for operations that are disabled while paused: fails with
/// `ContractPaused` exactly when the flag is set. Whether deposits and
/// withdrawals consult this guard is an integration choice left to the
/// composing system.
pub fn require_not_paused(state: &AdminState) -> (r: Result<(), Error>)
    ensures
        r == (if state.paused {
            Err::<(), Error>(Error::ContractPaused)
        } else {
            Ok::<(), Error>(())
        }),
{
    if is_paused(state) {
        return Err(Error::ContractPaused);
    }
    Ok(())
}

/// Law: initialization succeeds exactly once. From an uninitialized state
/// the first `initialize` succeeds and seeds the admin with the paused flag
/// cleared; any later `initialize` fails with `AlreadyInitialized` and
/// leaves the state unchanged, whatever admin operations ran in between.
pub proof fn lemma_initialize_one_shot(s: AdminState, first: Identity, second: Identity)
    requires
        s.admin is None,
    ensures
        initialize_spec(s, first) == (
            AdminState { admin: Some(first), paused: false },
            Ok::<(), Error>(()),
        ),
        initialize_spec(initialize_spec(s, first).0, second) == (
            initialize_spec(s, first).0,
            Err::<(), Error>(Error::AlreadyInitialized),
        ),
{
}

/// Law: an admin, once set, is never unset. Every admin transition keeps
/// `admin` a `Some` value, so `initialize` keeps failing and gated
/// operations keep demanding the current admin.
pub proof fn lemma_admin_stays_set(s: AdminState, caller: Identity, other: Identity, flag: bool)
    requires
        s.admin is Some,
    ensures
        initialize_spec(s, caller).0.admin is Some,
        set_admin_spec(s, caller, other).0.admin is Some,
        set_paused_spec(s, caller, flag).0.admin is Some,
{
}

/// Law: gated operations reject every caller other than the current admin
/// (including every caller while no admin is set) with `Unauthorized`, and
/// leave the state unchanged.
pub proof fn lemma_admin_gating(s: AdminState, caller: Identity, new_admin: Identity, flag: bool)
    requires
        !admin_authorized(s, caller),
    ensures
        set_admin_spec(s, caller, new_admin) == (s, Err::<(), Error>(Error::Unauthorized)),
        set_paused_spec(s, caller, flag) == (s, Err::<(), Error>(Error::Unauthorized)),
{
}

/// Law: transferring the admin revokes the old admin. After the current
/// admin hands control to a different identity, the new admin is authorized
/// and the old admin no longer is.
pub proof fn lemma_admin_transfer_revokes(s: AdminState, old_admin: Identity, new_admin: Identity)
    requires
        admin_authorized(s, old_admin),
        old_admin != new_admin,
    ensures
        set_admin_spec(s, old_admin, new_admin).1 == Ok::<(), Error>(()),
        admin_authorized(set_admin_spec(s, old_admin, new_admin).0, new_admin),
        !admin_authorized(set_admin_spec(s, old_admin, new_admin).0, old_admin),
{
}

} // verus!
