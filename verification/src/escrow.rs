//! The escrow engine: deposits, withdrawals, and read-only queries over the
//! commitment-keyed store.
//!
//! A deposit records a Pending entry under a commitment digest; the one
//! withdrawal that reveals the matching (recipient, amount, salt) triple
//! flips it to Spent. Entries are never deleted: a Spent entry stays as an
//! immutable audit record, and every later withdrawal against it fails.
//!
//! The value transfer itself and the withdrawal event belong to the
//! surrounding system: on a successful deposit it moves the amount into
//! custody, and on a successful withdrawal it pays the recipient and
//! publishes the event, after the state transition here has been made
//! durable.

use vstd::prelude::*;

use crate::admin;
use crate::commitment::{commitment_of, compute_commitment_hash};
use crate::types::{Error, EscrowEntry, EscrowEntryView, EscrowStatus, Identity, PartyRecord};
use crate::QuickexContract;

verus! {

/// Well-formed escrow store: each commitment appears at most once, every
/// commitment is a 32-byte digest, and every escrowed amount is positive.
pub open spec fn escrow_wf(s: Seq<EscrowEntryView>) -> bool {
    &&& forall|i: int, j: int|
        0 <= i < j < s.len() ==> #[trigger] s[i].commitment != #[trigger] s[j].commitment
    &&& forall|i: int|
        0 <= i < s.len() ==> (#[trigger] s[i].commitment.len() == 32 && s[i].amount > 0)
}

/// Whether an entry is stored under commitment `c`.
pub open spec fn has_commitment(s: Seq<EscrowEntryView>, c: Seq<u8>) -> bool {
    exists|i: int| 0 <= i < s.len() && #[trigger] s[i].commitment == c
}

/// The index of the entry stored under `c`; meaningful only when
/// `has_commitment` holds and commitments are unique.
pub open spec fn commitment_index(s: Seq<EscrowEntryView>, c: Seq<u8>) -> int {
    choose|i: int| 0 <= i < s.len() && #[trigger] s[i].commitment == c
}

/// The entry stored under `c`.
pub open spec fn entry_for(s: Seq<EscrowEntryView>, c: Seq<u8>) -> EscrowEntryView {
    s[commitment_index(s, c)]
}

/// The lifecycle position of the entry under `c`: its status, or `None`
/// when no entry exists.
pub open spec fn state_of(s: Seq<EscrowEntryView>, c: Seq<u8>) -> Option<EscrowStatus> {
    if has_commitment(s, c) {
        Some(entry_for(s, c).status)
    } else {
        None
    }
}

/// What `deposit` does to the store: records a Pending entry under `c`,
/// unless the amount is not positive or an entry (Pending or Spent) already
/// sits at `c` — re-deposit onto an existing key is rejected, not merged.
pub open spec fn deposit_spec(
    s: Seq<EscrowEntryView>,
    depositor: Identity,
    c: Seq<u8>,
    token: Identity,
    amount: i128,
    now: u64,
) -> (Seq<EscrowEntryView>, Result<(), Error>) {
    if amount <= 0 {
        (s, Err(Error::InvalidAmount))
    } else if has_commitment(s, c) {
        (s, Err(Error::DuplicateCommitment))
    } else {
        (
            s.push(
                EscrowEntryView {
                    commitment: c,
                    token,
                    amount,
                    status: EscrowStatus::Pending,
                    depositor,
                    created_at: now,
                },
            ),
            Ok(()),
        )
    }
}

/// The entry `e` with its status flipped to Spent.
pub open spec fn spent(e: EscrowEntryView) -> EscrowEntryView {
    EscrowEntryView {
        commitment: e.commitment,
        token: e.token,
        amount: e.amount,
        status: EscrowStatus::Spent,
        depositor: e.depositor,
        created_at: e.created_at,
    }
}

/// What `withdraw` does to the store: recomputes the commitment from the
/// revealed triple, and flips the matching Pending entry to Spent. Every
/// failure leaves the store untouched: `InvalidAmount` for a non-positive
/// amount, `CommitmentNotFound` when no entry sits at the recomputed
/// digest, `AlreadySpent` when the entry was already withdrawn, and
/// `InvalidCommitment` when the revealed amount differs from the escrowed
/// one under a matching digest.
pub open spec fn withdraw_spec(
    s: Seq<EscrowEntryView>,
    to: Identity,
    amount: i128,
    salt: Seq<u8>,
) -> (Seq<EscrowEntryView>, Result<bool, Error>) {
    if amount <= 0 {
        (s, Err(Error::InvalidAmount))
    } else {
        let c = commitment_of(to, amount, salt);
        if !has_commitment(s, c) {
            (s, Err(Error::CommitmentNotFound))
        } else {
            let i = commitment_index(s, c);
            if s[i].status != EscrowStatus::Pending {
                (s, Err(Error::AlreadySpent))
            } else if s[i].amount != amount {
                (s, Err(Error::InvalidCommitment))
            } else {
                (s.update(i, spent(s[i])), Ok(true))
            }
        }
    }
}

/// Whether a revealed (amount, salt, recipient) triple matches a Pending
/// entry: an entry sits at the recomputed digest, is still Pending, and
/// escrows exactly the revealed amount.
pub open spec fn verify_proof_spec(
    s: Seq<EscrowEntryView>,
    amount: i128,
    salt: Seq<u8>,
    recipient: Identity,
) -> bool {
    let c = commitment_of(recipient, amount, salt);
    &&& has_commitment(s, c)
    &&& entry_for(s, c).status == EscrowStatus::Pending
    &&& entry_for(s, c).amount == amount
}

/// Any index holding commitment `c` is the index `commitment_index`
/// denotes, provided commitments are unique.
proof fn lemma_commitment_index_unique(s: Seq<EscrowEntryView>, c: Seq<u8>, i: int)
    requires
        forall|a: int, b: int|
            0 <= a < b < s.len() ==> #[trigger] s[a].commitment != #[trigger] s[b].commitment,
        0 <= i < s.len(),
        s[i].commitment == c,
    ensures
        has_commitment(s, c),
        commitment_index(s, c) == i,
{
    assert(has_commitment(s, c));
    let j = commitment_index(s, c);
    if i < j {
        assert(s[i].commitment != s[j].commitment);
    } else if j < i {
        assert(s[j].commitment != s[i].commitment);
    }
}

/// Whether two byte strings hold the same bytes.
fn bytes_eq(a: &Vec<u8>, b: &Vec<u8>) -> (r: bool)
    ensures
        r == (a@ == b@),
{
    if a.len() != b.len() {
        return false;
    }
    let n = a.len();
    let mut k: usize = 0;
    while k < n
        invariant
            n == a@.len(),
            a@.len() == b@.len(),
            k <= n,
            forall|j: int| 0 <= j < k ==> a@[j] == b@[j],
        decreases n - k,
    {
        if a[k] != b[k] {
            return false;
        }
        k = k + 1;
    }
    assert(a@ =~= b@);
    true
}

/// Copies a byte string.
fn copy_bytes(src: &Vec<u8>) -> (r: Vec<u8>)
    ensures
        r@ == src@,
{
    let n = src.len();
    let mut out: Vec<u8> = Vec::new();
    let mut k: usize = 0;
    while k < n
        invariant
            n == src@.len(),
            k <= n,
            out@ == src@.subrange(0, k as int),
        decreases n - k,
    {
        out.push(src[k]);
        assert(out@ =~= src@.subrange(0, k + 1 as int));
        k = k + 1;
    }
    assert(src@.subrange(0, n as int) =~= src@);
    out
}

impl QuickexContract {
    /// The position of the entry under commitment `c`, if any.
    fn find_commitment(&self, c: &Vec<u8>) -> (r: Option<usize>)
        requires
            self.wf(),
        ensures
            r is Some <==> has_commitment(self.escrows_view(), c@),
            r matches Some(i) ==> i < self.escrows@.len() && commitment_index(
                self.escrows_view(),
                c@,
            ) == i as int,
    {
        let n = self.escrows.len();
        let mut k: usize = 0;
        while k < n
            invariant
                self.wf(),
                n == self.escrows@.len(),
                k <= n,
                forall|j: int| 0 <= j < k ==> #[trigger] self.escrows_view()[j].commitment != c@,
            decreases n - k,
        {
            if bytes_eq(&self.escrows[k].commitment, c) {
                proof {
                    lemma_commitment_index_unique(self.escrows_view(), c@, k as int);
                }
                return Some(k);
            }
            k = k + 1;
        }
        None
    }

    /// Records a deposit: reserves nothing itself — the surrounding system
    /// moves `amount` of `token` from the depositor into custody — and
    /// stores a Pending entry under `commitment`. Rejects a non-positive
    /// amount with `InvalidAmount` and an already-used commitment with
    /// `DuplicateCommitment`, so two funding events can never merge.
    pub fn deposit(
        &mut self,
        depositor: Identity,
        commitment: Vec<u8>,
        token: Identity,
        amount: i128,
        created_at: u64,
    ) -> (r: Result<(), Error>)
        requires
            old(self).wf(),
            commitment@.len() == 32,
        ensures
            final(self).wf(),
            final(self).escrows_view() == deposit_spec(
                old(self).escrows_view(),
                depositor,
                commitment@,
                token,
                amount,
                created_at,
            ).0,
            r == deposit_spec(
                old(self).escrows_view(),
                depositor,
                commitment@,
                token,
                amount,
                created_at,
            ).1,
            final(self).admin == old(self).admin,
            final(self).privacy == old(self).privacy,
            final(self).escrow_counter == old(self).escrow_counter,
            final(self).parties == old(self).parties,
    {
        if amount <= 0 {
            return Err(Error::InvalidAmount);
        }
        if self.find_commitment(&commitment).is_some() {
            return Err(Error::DuplicateCommitment);
        }
        let ghost pre = self.escrows_view();
        let entry = EscrowEntry {
            commitment,
            token,
            amount,
            status: EscrowStatus::Pending,
            depositor,
            created_at,
        };
        let ghost entry_view = entry@;
        self.escrows.push(entry);
        proof {
            let post = self.escrows_view();
            assert(post =~= pre.push(entry_view));
            assert forall|a: int, b: int|
                0 <= a < b < post.len() implies #[trigger] post[a].commitment
                != #[trigger] post[b].commitment by {
                if b < pre.len() {
                    assert(pre[a].commitment != pre[b].commitment);
                } else {
                    assert(!(0 <= a < pre.len() && pre[a].commitment == entry_view.commitment));
                }
            }
        }
        Ok(())
    }

    /// Withdraws against a revealed (recipient, amount, salt) triple:
    /// recomputes the commitment, flips the matching Pending entry to
    /// Spent, and answers `Ok(true)`. The flip is recorded before the
    /// surrounding system moves the value and publishes the withdrawal
    /// event, so a failed transfer can never be retried into a double
    /// payout. `to` must have been authenticated by the caller: the
    /// commitment binds the deposit to the recipient identity, not merely
    /// to knowledge of the salt.
    pub fn withdraw(&mut self, to: Identity, amount: i128, salt: &Vec<u8>) -> (r: Result<
        bool,
        Error,
    >)
        requires
            old(self).wf(),
        ensures
            final(self).wf(),
            final(self).escrows_view() == withdraw_spec(
                old(self).escrows_view(),
                to,
                amount,
                salt@,
            ).0,
            r == withdraw_spec(old(self).escrows_view(), to, amount, salt@).1,
            final(self).admin == old(self).admin,
            final(self).privacy == old(self).privacy,
            final(self).escrow_counter == old(self).escrow_counter,
            final(self).parties == old(self).parties,
    {
        if amount <= 0 {
            return Err(Error::InvalidAmount);
        }
        let c = compute_commitment_hash(&to, amount, salt);
        let found = self.find_commitment(&c);
        match found {
            None => Err(Error::CommitmentNotFound),
            Some(i) => {
                let ghost pre = self.escrows_view();
                let ghost idx = i as int;
                if self.escrows[i].status != EscrowStatus::Pending {
                    return Err(Error::AlreadySpent);
                }
                if self.escrows[i].amount != amount {
                    return Err(Error::InvalidCommitment);
                }
                let entry = &mut self.escrows[i];
                entry.status = EscrowStatus::Spent;
                proof {
                    let post = self.escrows_view();
                    assert(post =~= pre.update(idx, spent(pre[idx])));
                    assert forall|a: int, b: int|
                        0 <= a < b < post.len() implies #[trigger] post[a].commitment
                        != #[trigger] post[b].commitment by {
                        assert(pre[a].commitment != pre[b].commitment);
                    }
                }
                Ok(true)
            },
        }
    }

    /// The status of the entry under `commitment`: Pending, Spent, or
    /// `None` when nothing was ever deposited there.
    pub fn get_commitment_state(&self, commitment: &Vec<u8>) -> (r: Option<EscrowStatus>)
        requires
            self.wf(),
        ensures
            r == state_of(self.escrows_view(), commitment@),
    {
        match self.find_commitment(commitment) {
            Some(i) => Some(self.escrows[i].status),
            None => None,
        }
    }

    /// The full entry under `commitment`, or `None` when absent.
    pub fn get_escrow_details(&self, commitment: &Vec<u8>) -> (r: Option<EscrowEntry>)
        requires
            self.wf(),
        ensures
            r is Some <==> has_commitment(self.escrows_view(), commitment@),
            r matches Some(e) ==> e@ == entry_for(self.escrows_view(), commitment@),
    {
        match self.find_commitment(commitment) {
            Some(i) => {
                let e = &self.escrows[i];
                Some(
                    EscrowEntry {
                        commitment: copy_bytes(&e.commitment),
                        token: e.token,
                        amount: e.amount,
                        status: e.status,
                        depositor: e.depositor,
                        created_at: e.created_at,
                    },
                )
            },
            None => None,
        }
    }

    /// Stateless proof check: recomputes the commitment from the revealed
    /// triple and reports whether a matching Pending entry exists. Never
    /// errs and never mutates: any non-match — absent commitment, Spent
    /// entry, or diverging amount — simply answers `false`.
    pub fn verify_proof(&self, amount: i128, salt: &Vec<u8>, recipient: Identity) -> (r: bool)
        requires
            self.wf(),
        ensures
            r == verify_proof_spec(self.escrows_view(), amount, salt@, recipient),
    {
        let c = compute_commitment_hash(&recipient, amount, salt);
        match self.find_commitment(&c) {
            Some(i) => {
                let pending = match self.escrows[i].status {
                    EscrowStatus::Pending => true,
                    EscrowStatus::Spent => false,
                };
                pending && self.escrows[i].amount == amount
            },
            None => false,
        }
    }

    /// Creates a numeric-id escrow record: hands out the next id and files
    /// the (from, to) pair under it. This legacy scheme lives beside the
    /// commitment-keyed store and shares nothing with it.
    pub fn create_escrow(&mut self, from: Identity, to: Identity, _amount: u64) -> (r: u64)
        requires
            old(self).wf(),
            old(self).escrow_counter < u64::MAX,
        ensures
            final(self).wf(),
            final(self).escrow_counter == old(self).escrow_counter + 1,
            final(self).parties@ == old(self).parties@.push(
                PartyRecord { id: (old(self).escrow_counter + 1) as u64, from, to },
            ),
            r == old(self).escrow_counter + 1,
            r > 0,
            final(self).escrows == old(self).escrows,
            final(self).admin == old(self).admin,
            final(self).privacy == old(self).privacy,
    {
        let count = self.escrow_counter + 1;
        self.escrow_counter = count;
        self.parties.push(PartyRecord { id: count, from, to });
        count
    }

    /// Decides a code-upgrade request: only the current admin may upgrade.
    /// On `Ok` the surrounding system swaps in the code the hash names; the
    /// hash plays no part in the decision.
    pub fn upgrade(&self, caller: Identity, _new_wasm_hash: &Vec<u8>) -> (r: Result<(), Error>)
        ensures
            r == (if admin::admin_authorized(self.admin, caller) {
                Ok::<(), Error>(())
            } else {
                Err::<(), Error>(Error::Unauthorized)
            }),
    {
        admin::require_admin(&self.admin, &caller)
    }
}

/// Law: amounts must be positive. A deposit or a withdrawal naming a zero
/// or negative amount fails with `InvalidAmount` and leaves the store
/// untouched.
pub proof fn lemma_amount_positivity(
    s: Seq<EscrowEntryView>,
    depositor: Identity,
    c: Seq<u8>,
    token: Identity,
    amount: i128,
    now: u64,
    to: Identity,
    salt: Seq<u8>,
)
    requires
        amount <= 0,
    ensures
        deposit_spec(s, depositor, c, token, amount, now) == (
            s,
            Err::<(), Error>(Error::InvalidAmount),
        ),
        withdraw_spec(s, to, amount, salt) == (s, Err::<bool, Error>(Error::InvalidAmount)),
{
}

/// Law: at most one withdrawal per commitment ever succeeds. After a
/// withdrawal of a revealed triple succeeds, repeating it fails with
/// `AlreadySpent` and changes nothing — and since every failing withdrawal
/// leaves the store unchanged, so does every later attempt.
pub proof fn lemma_withdraw_at_most_once(
    s: Seq<EscrowEntryView>,
    to: Identity,
    amount: i128,
    salt: Seq<u8>,
)
    requires
        escrow_wf(s),
        withdraw_spec(s, to, amount, salt).1 == Ok::<bool, Error>(true),
    ensures
        ({
            let s1 = withdraw_spec(s, to, amount, salt).0;
            withdraw_spec(s1, to, amount, salt) == (s1, Err::<bool, Error>(Error::AlreadySpent))
        }),
{
    let c = commitment_of(to, amount, salt);
    let i = commitment_index(s, c);
    let s1 = withdraw_spec(s, to, amount, salt).0;
    assert(s1 == s.update(i, spent(s[i])));
    assert forall|a: int, b: int|
        0 <= a < b < s1.len() implies #[trigger] s1[a].commitment != #[trigger] s1[b].commitment by {
        assert(s[a].commitment != s[b].commitment);
    }
    assert(s1[i].commitment == c);
    lemma_commitment_index_unique(s1, c, i);
    assert(s1[i].status == EscrowStatus::Spent);
}

/// Law: a withdrawal against a Spent entry fails with `AlreadySpent` and
/// changes nothing, in whatever state the store has reached. Together with
/// the preservation laws below this covers every later attempt against a
/// commitment that was withdrawn once.
pub proof fn lemma_withdraw_spent_fails(
    s: Seq<EscrowEntryView>,
    to: Identity,
    amount: i128,
    salt: Seq<u8>,
)
    requires
        escrow_wf(s),
        amount > 0,
        has_commitment(s, commitment_of(to, amount, salt)),
        entry_for(s, commitment_of(to, amount, salt)).status == EscrowStatus::Spent,
    ensures
        withdraw_spec(s, to, amount, salt) == (s, Err::<bool, Error>(Error::AlreadySpent)),
{
}

/// Law: a Spent entry stays Spent across deposits. A deposit under any
/// other commitment cannot touch it, and a deposit under the same
/// commitment is rejected as a duplicate.
pub proof fn lemma_spent_stays_spent_deposit(
    s: Seq<EscrowEntryView>,
    c: Seq<u8>,
    depositor: Identity,
    c2: Seq<u8>,
    token: Identity,
    amount: i128,
    now: u64,
)
    requires
        escrow_wf(s),
        has_commitment(s, c),
        entry_for(s, c).status == EscrowStatus::Spent,
    ensures
        ({
            let s1 = deposit_spec(s, depositor, c2, token, amount, now).0;
            has_commitment(s1, c) && entry_for(s1, c) == entry_for(s, c)
        }),
{
    let i = commitment_index(s, c);
    let s1 = deposit_spec(s, depositor, c2, token, amount, now).0;
    if amount > 0 && !has_commitment(s, c2) {
        assert forall|a: int, b: int|
            0 <= a < b < s1.len() implies #[trigger] s1[a].commitment
            != #[trigger] s1[b].commitment by {
            if b < s.len() {
                assert(s[a].commitment != s[b].commitment);
            } else {
                assert(!(0 <= a < s.len() && s[a].commitment == c2));
            }
        }
        assert(s1[i].commitment == c);
        lemma_commitment_index_unique(s1, c, i);
    }
}

/// Law: a Spent entry stays Spent across withdrawals. A withdrawal only
/// ever flips a Pending entry, so the entry it touches is never the Spent
/// one, and the status transition is monotonic: Pending to Spent, never
/// back.
pub proof fn lemma_spent_stays_spent_withdraw(
    s: Seq<EscrowEntryView>,
    c: Seq<u8>,
    to: Identity,
    amount: i128,
    salt: Seq<u8>,
)
    requires
        escrow_wf(s),
        has_commitment(s, c),
        entry_for(s, c).status == EscrowStatus::Spent,
    ensures
        ({
            let s1 = withdraw_spec(s, to, amount, salt).0;
            has_commitment(s1, c) && entry_for(s1, c) == entry_for(s, c)
        }),
{
    let i = commitment_index(s, c);
    let s1 = withdraw_spec(s, to, amount, salt).0;
    if withdraw_spec(s, to, amount, salt).1 == Ok::<bool, Error>(true) {
        let c2 = commitment_of(to, amount, salt);
        let j = commitment_index(s, c2);
        assert(s[j].status == EscrowStatus::Pending);
        assert(j != i);
        assert(s1 == s.update(j, spent(s[j])));
        assert forall|a: int, b: int|
            0 <= a < b < s1.len() implies #[trigger] s1[a].commitment
            != #[trigger] s1[b].commitment by {
            assert(s[a].commitment != s[b].commitment);
        }
        assert(s1[i].commitment == c);
        lemma_commitment_index_unique(s1, c, i);
    }
}

/// Law: the commitment binds the withdrawal to the deposited triple. With
/// one Pending entry deposited under the digest of (to, amount, salt), a
/// withdrawal revealing any different triple fails and changes nothing:
/// with `CommitmentNotFound` when the recomputed digest differs, with
/// `InvalidCommitment` when the digests agree but the amounts diverge (and
/// with `InvalidAmount` when the revealed amount is not positive). The one
/// input left out is a digest collision between distinct triples of equal
/// amount: the hypothesis that equal digests entail unequal amounts rules
/// it out, as collision resistance of the hash does in practice.
pub proof fn lemma_commitment_binding(
    e: EscrowEntryView,
    to: Identity,
    amount: i128,
    salt: Seq<u8>,
    to2: Identity,
    amount2: i128,
    salt2: Seq<u8>,
)
    requires
        e.commitment == commitment_of(to, amount, salt),
        e.amount == amount,
        e.status == EscrowStatus::Pending,
        !(to2 == to && amount2 == amount && salt2 == salt),
        commitment_of(to2, amount2, salt2) == commitment_of(to, amount, salt) ==> amount2
            != amount,
    ensures
        withdraw_spec(seq![e], to2, amount2, salt2).0 == seq![e],
        withdraw_spec(seq![e], to2, amount2, salt2).1 is Err,
        amount2 > 0 ==> {
            ||| withdraw_spec(seq![e], to2, amount2, salt2).1 == Err::<bool, Error>(
                Error::CommitmentNotFound,
            )
            ||| withdraw_spec(seq![e], to2, amount2, salt2).1 == Err::<bool, Error>(
                Error::InvalidCommitment,
            )
        },
{
    let s = seq![e];
    let c2 = commitment_of(to2, amount2, salt2);
    if amount2 > 0 {
        if c2 == e.commitment {
            lemma_commitment_index_unique(s, c2, 0);
        } else {
            assert(!has_commitment(s, c2)) by {
                assert(forall|i: int| 0 <= i < s.len() ==> #[trigger] s[i].commitment != c2);
            }
        }
    }
}

} // verus!
