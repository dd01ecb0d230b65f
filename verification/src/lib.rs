//! Commitment-based escrow engine.
//!
//! The library releases escrowed value only to the party that can reveal a
//! pre-committed secret: a deposit is bound to a 32-byte digest of
//! (recipient, amount, salt), and exactly one withdrawal that reveals the
//! matching triple succeeds. Alongside the escrow state machine it keeps a
//! per-account privacy level tracker and an admin/pause access-control layer.
//!
//! The surrounding system owns the collaborators the engine talks to: the
//! persistent ledger (the engine's state is an explicit value the caller
//! holds), the authentication oracle (every caller identity handed to the
//! library is taken as already authenticated), the value-transfer service,
//! the event sink, and the code-upgrade mechanism.

use vstd::prelude::*;

pub mod admin;
pub mod commitment;
pub mod escrow;
pub mod privacy;
pub mod types;

use crate::admin::AdminState;
use crate::privacy::PrivacyTracker;
use crate::types::{EscrowEntry, EscrowEntryView, PartyRecord, PrivacyRecordView};

verus! {

/// The whole engine state: the commitment-keyed escrow store, the
/// access-control state, the privacy tracker, and the numeric-id escrow
/// counter with its records. The caller owns the value and passes it to
/// every operation, standing in for the persistent ledger.
pub struct QuickexContract {
    /// Commitment-keyed escrow entries; at most one per commitment digest.
    pub escrows: Vec<EscrowEntry>,
    /// Admin identity and paused flag.
    pub admin: AdminState,
    /// Per-account privacy levels and histories.
    pub privacy: PrivacyTracker,
    /// How many numeric-id escrow records were ever created.
    pub escrow_counter: u64,
    /// The numeric-id escrow records, in creation order; record `i` holds
    /// id `i + 1`.
    pub parties: Vec<PartyRecord>,
}

impl QuickexContract {
    /// The model of the escrow store: the sequence of entry views.
    pub open spec fn escrows_view(self) -> Seq<EscrowEntryView> {
        self.escrows.deep_view()
    }

    /// The model of the privacy tracker.
    pub open spec fn privacy_view(self) -> Seq<PrivacyRecordView> {
        self.privacy.view_seq()
    }

    /// Well-formed engine state: commitments are unique 32-byte digests
    /// over positive amounts, privacy accounts are unique, and the
    /// numeric-id records carry the ids the counter handed out in order.
    pub open spec fn wf(self) -> bool {
        &&& escrow::escrow_wf(self.escrows_view())
        &&& self.privacy.wf()
        &&& self.escrow_counter == self.parties@.len()
        &&& forall|i: int|
            0 <= i < self.parties@.len() ==> #[trigger] self.parties@[i].id == i + 1
    }

    /// A fresh engine: empty store, uninitialized admin, no privacy
    /// records, no numeric-id escrows.
    pub fn new() -> (c: QuickexContract)
        ensures
            c.wf(),
            c.escrows_view() == Seq::<EscrowEntryView>::empty(),
            c.admin.admin is None,
            !c.admin.paused,
            c.privacy_view() == Seq::<PrivacyRecordView>::empty(),
            c.escrow_counter == 0,
            c.parties@ == Seq::<PartyRecord>::empty(),
    {
        let c = QuickexContract {
            escrows: Vec::new(),
            admin: AdminState::new(),
            privacy: PrivacyTracker::new(),
            escrow_counter: 0,
            parties: Vec::new(),
        };
        assert(c.escrows_view() =~= Seq::<EscrowEntryView>::empty());
        assert(c.parties@ =~= Seq::<PartyRecord>::empty());
        c
    }

    /// Answers true: a liveness probe for the surrounding system.
    pub fn health_check() -> (r: bool)
        ensures
            r,
    {
        true
    }
}

} // verus!
