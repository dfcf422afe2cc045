//! Versioned storage: the layout version kept in instance storage, and the
//! migration of escrows stored in the version 1 layout (one entry per escrow,
//! milestones inline) to the granular version 2 layout.

use vstd::prelude::*;
use crate::errors::EscrowError;
use crate::escrow::{
    EscrowContract, EscrowContractView, EscrowMetaView, EscrowRecord, EscrowRecordView, MilestoneView,
    lemma_view_insert, lemma_view_remove, record_wf, view_milestones,
};
use crate::types::{AccountId, EscrowMeta, EscrowStatus, Hash32, Milestone, MS_APPROVED};

verus! {

/// Storage layout version that this code reads and writes.
pub const STORAGE_VERSION: u32 = 2u32;

/// Instance-storage keys of the version bookkeeping.
#[derive(Clone, Copy, Debug, PartialEq, Eq, Structural)]
pub enum StorageKey {
    /// Current storage version.
    Version,
}

/// An escrow in the version 1 layout, milestones inline.
#[derive(Debug)]
pub struct EscrowStateV1 {
    pub escrow_id: u64,
    pub client: AccountId,
    pub freelancer: AccountId,
    pub token: AccountId,
    pub total_amount: i128,
    pub remaining_balance: i128,
    pub status: EscrowStatus,
    pub milestones: Vec<Milestone>,
    pub arbiter: Option<AccountId>,
    pub created_at: u64,
    pub deadline: Option<u64>,
    pub lock_time: Option<u64>,
    pub lock_time_extension: Option<u64>,
    pub brief_hash: Hash32,
}

pub struct EscrowStateV1View {
    pub escrow_id: u64,
    pub client: AccountId,
    pub freelancer: AccountId,
    pub token: AccountId,
    pub total_amount: i128,
    pub remaining_balance: i128,
    pub status: EscrowStatus,
    pub milestones: Seq<MilestoneView>,
    pub arbiter: Option<AccountId>,
    pub created_at: u64,
    pub deadline: Option<u64>,
    pub lock_time: Option<u64>,
    pub lock_time_extension: Option<u64>,
    pub brief_hash: Hash32,
}

impl View for EscrowStateV1 {
    type V = EscrowStateV1View;

    open spec fn view(&self) -> EscrowStateV1View {
        EscrowStateV1View {
            escrow_id: self.escrow_id,
            client: self.client,
            freelancer: self.freelancer,
            token: self.token,
            total_amount: self.total_amount,
            remaining_balance: self.remaining_balance,
            status: self.status,
            milestones: view_milestones(self.milestones@),
            arbiter: self.arbiter,
            created_at: self.created_at,
            deadline: self.deadline,
            lock_time: self.lock_time,
            lock_time_extension: self.lock_time_extension,
            brief_hash: self.brief_hash,
        }
    }
}

/// Sum of the amounts of `ms`.
pub open spec fn sum_amounts(ms: Seq<MilestoneView>) -> int
    decreases ms.len(),
{
    if ms.len() == 0 {
        0
    } else {
        sum_amounts(ms.drop_last()) + ms.last().amount
    }
}

/// Number of milestones of `ms` in the approved state.
pub open spec fn count_approved(ms: Seq<MilestoneView>) -> int
    decreases ms.len(),
{
    if ms.len() == 0 {
        0
    } else {
        count_approved(ms.drop_last()) + (if ms.last().status == MS_APPROVED { 1int } else { 0int })
    }
}

/// A legacy entry stored under `key` is consistent: it names its own key, its
/// milestones are numbered by position and fit a `u32` count, and every
/// running total of their amounts fits an `i128`.
pub open spec fn legacy_wf(key: u64, v: EscrowStateV1View) -> bool {
    &&& v.escrow_id == key
    &&& v.milestones.len() <= u32::MAX
    &&& forall|k: int| 0 <= k < v.milestones.len() ==> (#[trigger] v.milestones[k]).id == k
    &&& forall|n: int| 0 <= n <= v.milestones.len() ==>
            i128::MIN <= #[trigger] sum_amounts(v.milestones.take(n)) <= i128::MAX
}

/// Header that the migration builds from a legacy entry.
pub open spec fn migrated_meta(v: EscrowStateV1View) -> EscrowMetaView {
    EscrowMetaView {
        escrow_id: v.escrow_id,
        client: v.client,
        freelancer: v.freelancer,
        token: v.token,
        total_amount: v.total_amount,
        allocated_amount: sum_amounts(v.milestones) as i128,
        remaining_balance: v.remaining_balance,
        status: v.status,
        milestone_count: v.milestones.len() as u32,
        approved_count: count_approved(v.milestones) as u32,
        released_count: 0,
        submitted_count: 0,
        arbiter: v.arbiter,
        buyer_signers: Seq::empty(),
        created_at: v.created_at,
        deadline: v.deadline,
        lock_time: v.lock_time,
        lock_time_extension: v.lock_time_extension,
        timelock: None,
        brief_hash: v.brief_hash,
        rent_balance: 0,
        last_rent_collection_at: v.created_at,
    }
}

/// Record that replaces escrow `id` after migrating `v`: the migrated header and
/// milestones, with any schedule, cancellation request or slash record kept.
pub open spec fn migrated_record(s: EscrowContractView, id: u64, v: EscrowStateV1View) -> EscrowRecordView {
    EscrowRecordView {
        meta: migrated_meta(v),
        milestones: v.milestones,
        recurring: if s.escrows.contains_key(id) { s.escrows[id].recurring } else { None },
        cancellation: if s.escrows.contains_key(id) { s.escrows[id].cancellation } else { None },
        slash: if s.escrows.contains_key(id) { s.escrows[id].slash } else { None },
    }
}

/// Legacy keys that the migration visits: the escrow ids handed out so far, `0..counter`.
pub open spec fn migrates_key(s: EscrowContractView, k: u64) -> bool {
    k < s.counter() && s.legacy_escrows.contains_key(k)
}

/// State after migrating every legacy escrow with an id in `0..counter`.
pub open spec fn migrated_state(s: EscrowContractView) -> EscrowContractView {
    EscrowContractView {
        escrows: Map::new(
            |k: u64| s.escrows.contains_key(k) || migrates_key(s, k),
            |k: u64| if migrates_key(s, k) { migrated_record(s, k, s.legacy_escrows[k]) } else { s.escrows[k] },
        ),
        legacy_escrows: s.legacy_escrows.restrict(
            s.legacy_escrows.dom().filter(|k: u64| !(k < s.counter())),
        ),
        ..s
    }
}

/// Record under `k` once the keys `0..done` have been migrated.
pub open spec fn migration_partial(s0: EscrowContractView, done: u64, k: u64) -> EscrowRecordView {
    if k < done && migrates_key(s0, k) {
        migrated_record(s0, k, s0.legacy_escrows[k])
    } else {
        s0.escrows[k]
    }
}

/// Storage version in force (1 when none is recorded).
pub open spec fn version_of(s: EscrowContractView) -> u32 {
    match s.storage_version {
        Some(v) => v,
        None => 1,
    }
}

/// `s` with the recorded storage version set to `v`.
pub open spec fn with_version(s: EscrowContractView, v: u32) -> EscrowContractView {
    EscrowContractView { storage_version: Some(v), ..s }
}

/// `s` and `t` agree on everything but the escrow and legacy maps.
pub open spec fn same_but_maps(s: EscrowContractView, t: EscrowContractView) -> bool {
    t == EscrowContractView { escrows: t.escrows, legacy_escrows: t.legacy_escrows, ..s }
}

/// Outcome of `migrate`.
pub open spec fn migrate_spec(s: EscrowContractView) -> Result<EscrowContractView, EscrowError> {
    let v = version_of(s);
    if v == STORAGE_VERSION {
        Ok(s)
    } else if v > STORAGE_VERSION {
        Err(EscrowError::StorageMigrationFailed)
    } else {
        Ok(with_version(migrated_state(s), 2u32))
    }
}

/// Storage version bookkeeping and migrations.
pub struct StorageManager;

impl StorageManager {
    /// Current storage version (1 for contracts that never recorded one).
    pub fn get_version(c: &EscrowContract) -> (r: u32)
        ensures
            r == version_of(c@),
    {
        match c.storage_version {
            Some(v) => v,
            None => 1,
        }
    }

    /// Records the storage version.
    pub fn set_version(c: &mut EscrowContract, version: u32)
        ensures
            final(c)@ == with_version(old(c)@, version),
    {
        c.storage_version = Some(version);
    }

    /// Whether the stored layout is older than the one this code uses.
    pub fn needs_migration(c: &EscrowContract) -> (r: bool)
        ensures
            r == (version_of(c@) < STORAGE_VERSION),
    {
        Self::get_version(c) < STORAGE_VERSION
    }

    /// Records the current version on a fresh deployment.
    pub fn init_version(c: &mut EscrowContract)
        ensures
            final(c)@ == with_version(old(c)@, STORAGE_VERSION),
    {
        Self::set_version(c, STORAGE_VERSION);
    }

    /// Brings the storage up to the current version; a newer stored version is
    /// refused, since downgrading could corrupt data.
    pub fn migrate(c: &mut EscrowContract) -> (r: Result<(), EscrowError>)
        requires
            old(c)@.wf(),
        ensures
            final(c)@.wf(),
            match migrate_spec(old(c)@) {
                Ok(s) => r is Ok && final(c)@ == s,
                Err(e) => r == Err::<(), EscrowError>(e) && final(c)@ == old(c)@,
            },
    {
        let current = Self::get_version(c);
        if current == STORAGE_VERSION {
            return Ok(());
        }
        if current > STORAGE_VERSION {
            return Err(EscrowError::StorageMigrationFailed);
        }
        Self::migrate_v1_to_v2(c);
        Self::set_version(c, 2);
        Ok(())
    }

    /// Moves every legacy escrow with an id in `0..counter` to the granular layout.
    fn migrate_v1_to_v2(c: &mut EscrowContract)
        requires
            old(c)@.wf(),
        ensures
            final(c)@ == migrated_state(old(c)@),
            final(c)@.wf(),
    {
        let counter: u64 = match c.escrow_counter {
            Some(n) => n,
            None => 0,
        };
        let ghost s0 = c@;
        if counter == 0 {
            proof {
                assert(c@.escrows =~= migrated_state(s0).escrows);
                assert(c@.legacy_escrows =~= migrated_state(s0).legacy_escrows);
            }
            return;
        }
        let mut done: u64 = 0;
        while done < counter
            invariant
                done <= counter,
                counter == s0.counter(),
                s0.wf(),
                c@.wf(),
                same_but_maps(s0, c@),
                forall|k: u64| #[trigger] c@.escrows.contains_key(k) <==>
                    (s0.escrows.contains_key(k) || (k < done && migrates_key(s0, k))),
                forall|k: u64| #[trigger] c@.escrows.contains_key(k) ==>
                    c@.escrows[k] == migration_partial(s0, done, k),
                forall|k: u64| #[trigger] c@.legacy_escrows.contains_key(k) <==>
                    (s0.legacy_escrows.contains_key(k) && !(k < done)),
                forall|k: u64| #[trigger] c@.legacy_escrows.contains_key(k) ==>
                    c@.legacy_escrows[k] == s0.legacy_escrows[k],
            decreases counter - done,
        {
            Self::migrate_one(c, done, Ghost(s0));
            done = done + 1;
        }
        proof {
            assert(c@.escrows =~= migrated_state(s0).escrows);
            assert(c@.legacy_escrows =~= migrated_state(s0).legacy_escrows);
        }
    }

    /// Migrates the legacy entry under `id`, if any.
    fn migrate_one(c: &mut EscrowContract, id: u64, Ghost(s0): Ghost<EscrowContractView>)
        requires
            old(c)@.wf(),
            forall|k: u64| #[trigger] old(c)@.legacy_escrows.contains_key(k) ==>
                old(c)@.legacy_escrows[k] == s0.legacy_escrows[k],
            old(c)@.legacy_escrows.contains_key(id) <==> s0.legacy_escrows.contains_key(id),
            old(c)@.escrows.contains_key(id) <==> s0.escrows.contains_key(id),
            old(c)@.escrows.contains_key(id) ==> old(c)@.escrows[id] == s0.escrows[id],
        ensures
            final(c)@.wf(),
            same_but_maps(old(c)@, final(c)@),
            final(c)@.legacy_escrows == old(c)@.legacy_escrows.remove(id),
            old(c)@.legacy_escrows.contains_key(id) ==> final(c)@.escrows
                == old(c)@.escrows.insert(id, migrated_record(s0, id, s0.legacy_escrows[id])),
            !old(c)@.legacy_escrows.contains_key(id) ==> final(c)@.escrows == old(c)@.escrows,
    {
        let removed = c.legacy_escrows.remove(&id);
        proof {
            lemma_view_remove(old(c).legacy_escrows@, id);
        }
        match removed {
            None => {
                proof {
                    assert(c@.legacy_escrows =~= old(c)@.legacy_escrows.remove(id));
                    assert(c@.reputations == old(c)@.reputations);
                }
            }
            Some(v1) => {
                proof {
                    assert(v1@ == s0.legacy_escrows[id]);
                    assert(legacy_wf(id, v1@));
                }
                let allocated = Self::sum_milestone_amounts(&v1.milestones);
                let approved = Self::count_approved_milestones(&v1.milestones);
                let (recurring, cancellation, slash) = match c.escrows.remove(&id) {
                    Some(existing) => (existing.recurring, existing.cancellation, existing.slash),
                    None => (None, None, None),
                };
                proof {
                    lemma_view_remove(old(c).escrows@, id);
                }
                let count = v1.milestones.len() as u32;
                let meta = EscrowMeta {
                    escrow_id: v1.escrow_id,
                    client: v1.client,
                    freelancer: v1.freelancer,
                    token: v1.token,
                    total_amount: v1.total_amount,
                    allocated_amount: allocated,
                    remaining_balance: v1.remaining_balance,
                    status: v1.status,
                    milestone_count: count,
                    approved_count: approved,
                    released_count: 0,
                    submitted_count: 0,
                    arbiter: v1.arbiter,
                    buyer_signers: Vec::new(),
                    created_at: v1.created_at,
                    deadline: v1.deadline,
                    lock_time: v1.lock_time,
                    lock_time_extension: v1.lock_time_extension,
                    timelock: None,
                    brief_hash: v1.brief_hash,
                    rent_balance: 0,
                    last_rent_collection_at: v1.created_at,
                };
                let rec = EscrowRecord {
                    meta,
                    milestones: v1.milestones,
                    recurring,
                    cancellation,
                    slash,
                };
                proof {
                    assert(rec@.meta =~= migrated_meta(s0.legacy_escrows[id]));
                    assert(rec@ =~= migrated_record(s0, id, s0.legacy_escrows[id]));
                }
                c.escrows.insert(id, rec);
                proof {
                    lemma_view_insert(old(c).escrows@.remove(id), id, rec);
                    assert(c@.escrows =~= old(c)@.escrows.insert(id, migrated_record(s0, id, s0.legacy_escrows[id])));
                    assert(c@.legacy_escrows =~= old(c)@.legacy_escrows.remove(id));
                    assert(record_wf(rec@));
                    assert(c@.reputations == old(c)@.reputations);
                }
            }
        }
    }

    /// Sum of the milestone amounts, every running total fitting an `i128`.
    fn sum_milestone_amounts(ms: &Vec<Milestone>) -> (r: i128)
        requires
            forall|n: int| 0 <= n <= ms@.len() ==>
                i128::MIN <= #[trigger] sum_amounts(view_milestones(ms@).take(n)) <= i128::MAX,
        ensures
            r == sum_amounts(view_milestones(ms@)),
    {
        let ghost vs = view_milestones(ms@);
        let mut total: i128 = 0;
        let mut i: usize = 0;
        assert(vs.take(0) =~= Seq::<MilestoneView>::empty());
        while i < ms.len()
            invariant
                0 <= i <= ms@.len(),
                vs == view_milestones(ms@),
                total == sum_amounts(vs.take(i as int)),
                forall|n: int| 0 <= n <= ms@.len() ==>
                    i128::MIN <= #[trigger] sum_amounts(vs.take(n)) <= i128::MAX,
            decreases ms@.len() - i,
        {
            proof {
                assert(vs.take(i + 1).drop_last() =~= vs.take(i as int));
                assert(vs.take(i + 1).last() == vs[i as int]);
                assert(sum_amounts(vs.take(i + 1)) <= i128::MAX);
            }
            total = total + ms[i].amount;
            i = i + 1;
        }
        assert(vs.take(ms@.len() as int) =~= vs);
        total
    }

    /// Number of milestones in the approved state.
    fn count_approved_milestones(ms: &Vec<Milestone>) -> (r: u32)
        requires
            ms@.len() <= u32::MAX,
        ensures
            r == count_approved(view_milestones(ms@)),
    {
        let ghost vs = view_milestones(ms@);
        let mut n: u32 = 0;
        let mut i: usize = 0;
        assert(vs.take(0) =~= Seq::<MilestoneView>::empty());
        while i < ms.len()
            invariant
                0 <= i <= ms@.len(),
                ms@.len() <= u32::MAX,
                vs == view_milestones(ms@),
                n == count_approved(vs.take(i as int)),
                n <= i,
            decreases ms@.len() - i,
        {
            proof {
                assert(vs.take(i + 1).drop_last() =~= vs.take(i as int));
                assert(vs.take(i + 1).last() == vs[i as int]);
            }
            if ms[i].status == MS_APPROVED {
                n = n + 1;
            }
            i = i + 1;
        }
        assert(vs.take(ms@.len() as int) =~= vs);
        n
    }
}

} // verus!
