//! Shared data model: identities, escrow entries, events and errors.

use vstd::prelude::*;

verus! {

/// An opaque, comparable identity: an account, a recipient, or the handle of
/// the asset a transfer collaborator moves. The surrounding system maps its
/// own address representation onto this value; the library only compares
/// identities and feeds their canonical byte encoding to the commitment hash.
#[derive(Clone, Copy, PartialEq, Eq, Structural, Debug, Hash)]
pub struct Identity {
    pub id: u64,
}

/// Lifecycle position of an escrow entry. The only transition is
/// `Pending -> Spent`; it is never reversed.
#[derive(Clone, Copy, PartialEq, Eq, Structural, Debug)]
pub enum EscrowStatus {
    Pending,
    Spent,
}

/// Every failure the engine surfaces to a caller.
#[derive(Clone, Copy, PartialEq, Eq, Structural, Debug)]
pub enum Error {
    /// No entry is stored under the recomputed commitment digest.
    CommitmentNotFound,
    /// The entry under the commitment has already been withdrawn.
    AlreadySpent,
    /// The revealed amount does not match the escrowed amount.
    InvalidCommitment,
    /// A deposit or withdrawal named an amount that is not positive.
    InvalidAmount,
    /// A deposit named a commitment that already has an entry.
    DuplicateCommitment,
    /// `initialize` was called while an admin is already set.
    AlreadyInitialized,
    /// A gated operation was called without an admin set, or by a caller
    /// other than the current admin. The two cases are deliberately not
    /// distinguished, so unauthorized callers cannot probe whether the
    /// contract has been initialized.
    Unauthorized,
    /// A guarded operation was attempted while the contract is paused.
    ContractPaused,
}

/// One escrowed deposit, keyed by its 32-byte commitment digest.
#[derive(Clone, Debug)]
pub struct EscrowEntry {
    /// Primary key: digest of (recipient, amount, salt).
    pub commitment: Vec<u8>,
    /// Asset handle understood by the transfer collaborator.
    pub token: Identity,
    /// Escrowed amount; strictly positive and immutable after creation.
    pub amount: i128,
    /// Pending until the one successful withdrawal flips it to Spent.
    pub status: EscrowStatus,
    /// Who funded the escrow; kept for audit only.
    pub depositor: Identity,
    /// Logical timestamp supplied at creation, set once.
    pub created_at: u64,
}

/// Mathematical model of an [`EscrowEntry`].
pub struct EscrowEntryView {
    pub commitment: Seq<u8>,
    pub token: Identity,
    pub amount: i128,
    pub status: EscrowStatus,
    pub depositor: Identity,
    pub created_at: u64,
}

impl View for EscrowEntry {
    type V = EscrowEntryView;

    open spec fn view(&self) -> EscrowEntryView {
        EscrowEntryView {
            commitment: self.commitment@,
            token: self.token,
            amount: self.amount,
            status: self.status,
            depositor: self.depositor,
            created_at: self.created_at,
        }
    }
}

impl DeepView for EscrowEntry {
    type V = EscrowEntryView;

    open spec fn deep_view(&self) -> EscrowEntryView {
        self.view()
    }
}

/// What the surrounding system publishes to its event sink after a
/// successful withdrawal.
#[derive(Clone, Debug)]
pub struct WithdrawEvent {
    pub to: Identity,
    pub commitment: Vec<u8>,
}

/// Per-account privacy setting: the current level and the most-recent-first
/// history of every level ever set.
#[derive(Clone, Debug)]
pub struct PrivacyRecord {
    pub account: Identity,
    pub level: u32,
    pub history: Vec<u32>,
}

/// Mathematical model of a [`PrivacyRecord`].
pub struct PrivacyRecordView {
    pub account: Identity,
    pub level: u32,
    pub history: Seq<u32>,
}

impl View for PrivacyRecord {
    type V = PrivacyRecordView;

    open spec fn view(&self) -> PrivacyRecordView {
        PrivacyRecordView { account: self.account, level: self.level, history: self.history@ }
    }
}

impl DeepView for PrivacyRecord {
    type V = PrivacyRecordView;

    open spec fn deep_view(&self) -> PrivacyRecordView {
        self.view()
    }
}

/// One record of the numeric-id escrow scheme: a (from, to) pair filed under
/// the id the counter handed out when it was created.
#[derive(Clone, Copy, PartialEq, Eq, Structural, Debug)]
pub struct PartyRecord {
    pub id: u64,
    pub from: Identity,
    pub to: Identity,
}

} // verus!
