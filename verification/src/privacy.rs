//! Per-account privacy levels.
//!
//! Each account carries a current privacy level and an append-only history
//! of every level ever set, most recent first. Setting a level always
//! succeeds; no range check is applied and the history grows without bound
//! for the lifetime of the account.

use vstd::prelude::*;

use crate::types::{Identity, PrivacyRecord, PrivacyRecordView};

verus! {

/// All privacy records, one per account that ever set a level.
#[derive(Clone, Debug)]
pub struct PrivacyTracker {
    pub records: Vec<PrivacyRecord>,
}

/// Each account appears in at most one record.
pub open spec fn privacy_wf(s: Seq<PrivacyRecordView>) -> bool {
    forall|i: int, j: int|
        0 <= i < j < s.len() ==> #[trigger] s[i].account != #[trigger] s[j].account
}

/// Whether `who` has a record.
pub open spec fn has_account(s: Seq<PrivacyRecordView>, who: Identity) -> bool {
    exists|i: int| 0 <= i < s.len() && #[trigger] s[i].account == who
}

/// The index of `who`'s record; meaningful only when `has_account` holds
/// and the accounts are unique.
pub open spec fn account_index(s: Seq<PrivacyRecordView>, who: Identity) -> int {
    choose|i: int| 0 <= i < s.len() && #[trigger] s[i].account == who
}

/// What `enable_privacy` does to the records: prepends `level` to `who`'s
/// history and makes it the current level, creating the record on first use.
pub open spec fn enable_privacy_spec(s: Seq<PrivacyRecordView>, who: Identity, level: u32) -> Seq<
    PrivacyRecordView,
> {
    if has_account(s, who) {
        let i = account_index(s, who);
        s.update(
            i,
            PrivacyRecordView { account: who, level, history: seq![level] + s[i].history },
        )
    } else {
        s.push(PrivacyRecordView { account: who, level, history: seq![level] })
    }
}

/// The current level of `who`, or `None` if no level was ever set.
pub open spec fn status_spec(s: Seq<PrivacyRecordView>, who: Identity) -> Option<u32> {
    if has_account(s, who) {
        Some(s[account_index(s, who)].level)
    } else {
        None
    }
}

/// The most-recent-first history of `who`, empty if no level was ever set.
pub open spec fn history_spec(s: Seq<PrivacyRecordView>, who: Identity) -> Seq<u32> {
    if has_account(s, who) {
        s[account_index(s, who)].history
    } else {
        Seq::empty()
    }
}

/// Any index holding `who`'s record is the index `account_index` denotes,
/// provided accounts are unique.
proof fn lemma_account_index_unique(s: Seq<PrivacyRecordView>, who: Identity, i: int)
    requires
        privacy_wf(s),
        0 <= i < s.len(),
        s[i].account == who,
    ensures
        has_account(s, who),
        account_index(s, who) == i,
{
    assert(has_account(s, who));
    let j = account_index(s, who);
    if i < j {
        assert(s[i].account != s[j].account);
    } else if j < i {
        assert(s[j].account != s[i].account);
    }
}

impl PrivacyTracker {
    /// The model of the tracker: the sequence of record views.
    pub open spec fn view_seq(self) -> Seq<PrivacyRecordView> {
        self.records.deep_view()
    }

    /// Well-formed tracker: at most one record per account.
    pub open spec fn wf(self) -> bool {
        privacy_wf(self.view_seq())
    }

    /// An empty tracker: no account has a record.
    pub fn new() -> (t: PrivacyTracker)
        ensures
            t.wf(),
            t.view_seq() == Seq::<PrivacyRecordView>::empty(),
    {
        let t = PrivacyTracker { records: Vec::new() };
        assert(t.view_seq() =~= Seq::<PrivacyRecordView>::empty());
        t
    }

    /// The position of `who`'s record, if any.
    fn find_account(&self, who: &Identity) -> (r: Option<usize>)
        requires
            self.wf(),
        ensures
            r is Some <==> has_account(self.view_seq(), *who),
            r matches Some(i) ==> i < self.records@.len() && account_index(self.view_seq(), *who)
                == i as int,
    {
        let n = self.records.len();
        let mut k: usize = 0;
        while k < n
            invariant
                self.wf(),
                n == self.records@.len(),
                k <= n,
                forall|j: int| 0 <= j < k ==> #[trigger] self.view_seq()[j].account != *who,
            decreases n - k,
        {
            if self.records[k].account.id == who.id {
                proof {
                    lemma_account_index_unique(self.view_seq(), *who, k as int);
                }
                return Some(k);
            }
            k = k + 1;
        }
        None
    }

    /// Sets `level` as `who`'s current privacy level and prepends it to the
    /// history; always succeeds and answers `true`.
    pub fn enable_privacy(&mut self, account: Identity, privacy_level: u32) -> (r: bool)
        requires
            old(self).wf(),
        ensures
            final(self).wf(),
            final(self).view_seq() == enable_privacy_spec(
                old(self).view_seq(),
                account,
                privacy_level,
            ),
            r,
    {
        let found = self.find_account(&account);
        match found {
            Some(i) => {
                let ghost pre = self.view_seq();
                let record = &mut self.records[i];
                record.level = privacy_level;
                record.history.insert(0, privacy_level);
                proof {
                    let post = enable_privacy_spec(pre, account, privacy_level);
                    assert(seq![privacy_level] + pre[i as int].history =~= pre[i as int].history
                        .insert(0, privacy_level));
                    assert(self.view_seq() =~= post);
                    assert forall|a: int, b: int|
                        0 <= a < b < post.len() implies #[trigger] post[a].account
                        != #[trigger] post[b].account by {
                        assert(pre[a].account != pre[b].account);
                    }
                }
                true
            },
            None => {
                let ghost pre = self.view_seq();
                let mut history: Vec<u32> = Vec::new();
                history.push(privacy_level);
                self.records.push(
                    PrivacyRecord { account, level: privacy_level, history },
                );
                proof {
                    let post = enable_privacy_spec(pre, account, privacy_level);
                    assert(self.view_seq() =~= post);
                    assert forall|a: int, b: int|
                        0 <= a < b < post.len() implies #[trigger] post[a].account
                        != #[trigger] post[b].account by {
                        if b < pre.len() {
                            assert(pre[a].account != pre[b].account);
                        } else {
                            assert(pre[a].account != account);
                        }
                    }
                }
                true
            },
        }
    }

    /// The current privacy level of `account`, or `None` if never set.
    pub fn privacy_status(&self, account: Identity) -> (r: Option<u32>)
        requires
            self.wf(),
        ensures
            r == status_spec(self.view_seq(), account),
    {
        match self.find_account(&account) {
            Some(i) => Some(self.records[i].level),
            None => None,
        }
    }

    /// The most-recent-first history of `account`, empty if never set.
    pub fn privacy_history(&self, account: Identity) -> (r: Vec<u32>)
        requires
            self.wf(),
        ensures
            r@ == history_spec(self.view_seq(), account),
    {
        match self.find_account(&account) {
            Some(i) => {
                let h = self.records[i].history.clone();
                assert(h@ =~= self.records@[i as int].history@);
                h
            },
            None => {
                let h: Vec<u32> = Vec::new();
                assert(h@ =~= history_spec(self.view_seq(), account));
                h
            },
        }
    }
}

impl crate::QuickexContract {
    /// Sets `privacy_level` as `account`'s current level and prepends it
    /// to the history; always succeeds and answers `true`.
    pub fn enable_privacy(&mut self, account: Identity, privacy_level: u32) -> (r: bool)
        requires
            old(self).wf(),
        ensures
            final(self).wf(),
            final(self).privacy_view() == enable_privacy_spec(
                old(self).privacy_view(),
                account,
                privacy_level,
            ),
            r,
            final(self).escrows == old(self).escrows,
            final(self).admin == old(self).admin,
            final(self).escrow_counter == old(self).escrow_counter,
            final(self).parties == old(self).parties,
    {
        self.privacy.enable_privacy(account, privacy_level)
    }

    /// The current privacy level of `account`, or `None` if never set.
    pub fn privacy_status(&self, account: Identity) -> (r: Option<u32>)
        requires
            self.wf(),
        ensures
            r == status_spec(self.privacy_view(), account),
    {
        self.privacy.privacy_status(account)
    }

    /// The most-recent-first history of `account`, empty if never set.
    pub fn privacy_history(&self, account: Identity) -> (r: Vec<u32>)
        requires
            self.wf(),
        ensures
            r@ == history_spec(self.privacy_view(), account),
    {
        self.privacy.privacy_history(account)
    }
}

/// Law: the privacy history is ordered most recent first. Setting levels
/// `first`, then `second`, then `third` for an account with no prior record
/// leaves `third` as the current level and the history reading
/// `[third, second, first]`.
pub proof fn lemma_privacy_history_ordering(
    s: Seq<PrivacyRecordView>,
    who: Identity,
    first: u32,
    second: u32,
    third: u32,
)
    requires
        privacy_wf(s),
        !has_account(s, who),
    ensures
        ({
            let s3 = enable_privacy_spec(
                enable_privacy_spec(enable_privacy_spec(s, who, first), who, second),
                who,
                third,
            );
            status_spec(s3, who) == Some(third) && history_spec(s3, who) == seq![
                third,
                second,
                first,
            ]
        }),
{
    let n = s.len() as int;
    let s1 = enable_privacy_spec(s, who, first);
    assert(s1 == s.push(PrivacyRecordView { account: who, level: first, history: seq![first] }));
    lemma_account_index_unique_push(s, who, first);
    let s2 = enable_privacy_spec(s1, who, second);
    assert(account_index(s1, who) == n);
    assert(s2[n].history =~= seq![second, first]);
    lemma_account_index_update(s1, who, second);
    let s3 = enable_privacy_spec(s2, who, third);
    assert(account_index(s2, who) == n);
    assert(s3[n].history =~= seq![third, second, first]);
    lemma_account_index_update(s2, who, third);
    assert(account_index(s3, who) == n);
    assert(history_spec(s3, who) =~= seq![third, second, first]);
}

/// After pushing a fresh record for `who`, `who` is found at the end.
proof fn lemma_account_index_unique_push(s: Seq<PrivacyRecordView>, who: Identity, level: u32)
    requires
        privacy_wf(s),
        !has_account(s, who),
    ensures
        ({
            let s1 = s.push(PrivacyRecordView { account: who, level, history: seq![level] });
            privacy_wf(s1) && has_account(s1, who) && account_index(s1, who) == s.len()
        }),
{
    let s1 = s.push(PrivacyRecordView { account: who, level, history: seq![level] });
    assert forall|a: int, b: int|
        0 <= a < b < s1.len() implies #[trigger] s1[a].account != #[trigger] s1[b].account by {
        if b < s.len() {
            assert(s[a].account != s[b].account);
        } else {
            assert(!(0 <= a < s.len() && s[a].account == who));
        }
    }
    assert(s1[s.len() as int].account == who);
    lemma_account_index_unique(s1, who, s.len() as int);
}

/// Updating `who`'s record in place keeps it found at the same index.
proof fn lemma_account_index_update(s: Seq<PrivacyRecordView>, who: Identity, level: u32)
    requires
        privacy_wf(s),
        has_account(s, who),
    ensures
        ({
            let i = account_index(s, who);
            let s1 = s.update(
                i,
                PrivacyRecordView { account: who, level, history: seq![level] + s[i].history },
            );
            privacy_wf(s1) && has_account(s1, who) && account_index(s1, who) == i
        }),
{
    let i = account_index(s, who);
    let s1 = s.update(
        i,
        PrivacyRecordView { account: who, level, history: seq![level] + s[i].history },
    );
    assert forall|a: int, b: int|
        0 <= a < b < s1.len() implies #[trigger] s1[a].account != #[trigger] s1[b].account by {
        assert(s[a].account != s[b].account);
    }
    assert(s1[i].account == who);
    lemma_account_index_unique(s1, who, i);
}

} // verus!
