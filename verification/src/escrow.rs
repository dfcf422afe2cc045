//! State of the escrow contract, its abstract view, and the steps that every
//! entry point shares (pause check, lazy rent settlement).

use std::collections::HashMap;
use vstd::prelude::*;
use crate::constants::RENT_PERIOD_SECONDS;
use crate::errors::EscrowError;
use crate::rent::{
    ContractStorage, balance_after_spec, collectable_spec, collection_fits, last_after_spec,
    rent_expired_spec, rent_per_period_spec,
};
use crate::storage::{EscrowStateV1, EscrowStateV1View, legacy_wf};
use crate::types::{
    AccountId, ApprovalRecord, CancellationRequest, EscrowMeta, EscrowStatus, Hash32, Milestone,
    MilestoneStatus, RecurringPaymentConfig, ReputationRecord, SlashRecord, Timelock, Transfer,
    WrappedTokenInfo,
};

verus! {

broadcast use vstd::std_specs::hash::group_hash_axioms;

// ── Views of the stored records ────────────────────────────────────────────────

pub struct MilestoneView {
    pub id: u32,
    pub title: Seq<u8>,
    pub description_hash: Hash32,
    pub amount: i128,
    pub status: MilestoneStatus,
    pub submitted_at: Option<u64>,
    pub resolved_at: Option<u64>,
    pub approvals: Seq<ApprovalRecord>,
    pub rejection_reason: Option<Hash32>,
}

impl View for Milestone {
    type V = MilestoneView;

    open spec fn view(&self) -> MilestoneView {
        MilestoneView {
            id: self.id,
            title: self.title@,
            description_hash: self.description_hash,
            amount: self.amount,
            status: self.status,
            submitted_at: self.submitted_at,
            resolved_at: self.resolved_at,
            approvals: self.approvals@,
            rejection_reason: self.rejection_reason,
        }
    }
}

pub struct EscrowMetaView {
    pub escrow_id: u64,
    pub client: AccountId,
    pub freelancer: AccountId,
    pub token: AccountId,
    pub total_amount: i128,
    pub allocated_amount: i128,
    pub remaining_balance: i128,
    pub status: EscrowStatus,
    pub milestone_count: u32,
    pub approved_count: u32,
    pub released_count: u32,
    pub submitted_count: u32,
    pub arbiter: Option<AccountId>,
    pub buyer_signers: Seq<AccountId>,
    pub created_at: u64,
    pub deadline: Option<u64>,
    pub lock_time: Option<u64>,
    pub lock_time_extension: Option<u64>,
    pub timelock: Option<Timelock>,
    pub brief_hash: Hash32,
    pub rent_balance: i128,
    pub last_rent_collection_at: u64,
}

impl View for EscrowMeta {
    type V = EscrowMetaView;

    open spec fn view(&self) -> EscrowMetaView {
        EscrowMetaView {
            escrow_id: self.escrow_id,
            client: self.client,
            freelancer: self.freelancer,
            token: self.token,
            total_amount: self.total_amount,
            allocated_amount: self.allocated_amount,
            remaining_balance: self.remaining_balance,
            status: self.status,
            milestone_count: self.milestone_count,
            approved_count: self.approved_count,
            released_count: self.released_count,
            submitted_count: self.submitted_count,
            arbiter: self.arbiter,
            buyer_signers: self.buyer_signers@,
            created_at: self.created_at,
            deadline: self.deadline,
            lock_time: self.lock_time,
            lock_time_extension: self.lock_time_extension,
            timelock: self.timelock,
            brief_hash: self.brief_hash,
            rent_balance: self.rent_balance,
            last_rent_collection_at: self.last_rent_collection_at,
        }
    }
}

pub struct CancellationRequestView {
    pub escrow_id: u64,
    pub requester: AccountId,
    pub reason: Seq<u8>,
    pub requested_at: u64,
    pub dispute_deadline: u64,
    pub disputed: bool,
    pub counterparty_approved: bool,
}

impl View for CancellationRequest {
    type V = CancellationRequestView;

    open spec fn view(&self) -> CancellationRequestView {
        CancellationRequestView {
            escrow_id: self.escrow_id,
            requester: self.requester,
            reason: self.reason@,
            requested_at: self.requested_at,
            dispute_deadline: self.dispute_deadline,
            disputed: self.disputed,
            counterparty_approved: self.counterparty_approved,
        }
    }
}

pub struct SlashRecordView {
    pub escrow_id: u64,
    pub slashed_user: AccountId,
    pub recipient: AccountId,
    pub amount: i128,
    pub reason: Seq<u8>,
    pub slashed_at: u64,
    pub disputed: bool,
}

impl View for SlashRecord {
    type V = SlashRecordView;

    open spec fn view(&self) -> SlashRecordView {
        SlashRecordView {
            escrow_id: self.escrow_id,
            slashed_user: self.slashed_user,
            recipient: self.recipient,
            amount: self.amount,
            reason: self.reason@,
            slashed_at: self.slashed_at,
            disputed: self.disputed,
        }
    }
}

/// Everything stored for one escrow: its header, its milestones (milestone
/// `k` at position `k`), and the optional schedule, cancellation request and
/// slash record.
pub struct EscrowRecord {
    pub meta: EscrowMeta,
    pub milestones: Vec<Milestone>,
    pub recurring: Option<RecurringPaymentConfig>,
    pub cancellation: Option<CancellationRequest>,
    pub slash: Option<SlashRecord>,
}

pub struct EscrowRecordView {
    pub meta: EscrowMetaView,
    pub milestones: Seq<MilestoneView>,
    pub recurring: Option<RecurringPaymentConfig>,
    pub cancellation: Option<CancellationRequestView>,
    pub slash: Option<SlashRecordView>,
}

pub open spec fn view_milestones(ms: Seq<Milestone>) -> Seq<MilestoneView> {
    ms.map_values(|m: Milestone| m@)
}

pub open spec fn view_cancellation(c: Option<CancellationRequest>) -> Option<CancellationRequestView> {
    match c {
        Some(r) => Some(r@),
        None => None,
    }
}

pub open spec fn view_slash(c: Option<SlashRecord>) -> Option<SlashRecordView> {
    match c {
        Some(r) => Some(r@),
        None => None,
    }
}

impl View for EscrowRecord {
    type V = EscrowRecordView;

    open spec fn view(&self) -> EscrowRecordView {
        EscrowRecordView {
            meta: self.meta@,
            milestones: view_milestones(self.milestones@),
            recurring: self.recurring,
            cancellation: view_cancellation(self.cancellation),
            slash: view_slash(self.slash),
        }
    }
}

/// Number of optional entries (schedule, cancellation request, slash record) an escrow stores.
pub open spec fn extra_entries(rec: EscrowRecordView) -> int {
    (if rec.recurring is Some { 1int } else { 0int })
    + (if rec.cancellation is Some { 1int } else { 0int })
    + (if rec.slash is Some { 1int } else { 0int })
}

/// Rent the escrow owes per period.
pub open spec fn per_period(rec: EscrowRecordView) -> int {
    rent_per_period_spec(rec.meta.milestone_count, extra_entries(rec))
}

/// A stored escrow is consistent: its reserve is not negative and its
/// milestones are numbered `0..milestone_count` by position.
pub open spec fn record_wf(rec: EscrowRecordView) -> bool {
    &&& rec.meta.rent_balance >= 0
    &&& rec.milestones.len() == rec.meta.milestone_count
    &&& forall|k: int| 0 <= k < rec.milestones.len() ==> (#[trigger] rec.milestones[k]).id == k
}

// ── The contract ───────────────────────────────────────────────────────────────

/// The escrow contract: its instance entries and its persistent entries.
pub struct EscrowContract {
    /// Address of the contract itself: escrowed funds are held there.
    pub contract_address: AccountId,
    pub admin: Option<AccountId>,
    pub escrow_counter: Option<u64>,
    pub paused: bool,
    /// Whether the pause flag has ever been written.
    pub pause_recorded: bool,
    pub max_milestones: Option<u32>,
    pub storage_version: Option<u32>,
    pub migration_cursor: Option<u64>,
    pub oracle: Option<AccountId>,
    pub fallback_oracle: Option<AccountId>,
    pub wormhole_bridge: Option<AccountId>,
    /// Registered bridged tokens, by address.
    pub wrapped_tokens: HashMap<AccountId, WrappedTokenInfo>,
    pub escrows: HashMap<u64, EscrowRecord>,
    pub legacy_escrows: HashMap<u64, EscrowStateV1>,
    pub reputations: HashMap<AccountId, ReputationRecord>,
    pub meta_tx_nonces: HashMap<AccountId, u64>,
}

pub struct EscrowContractView {
    pub contract_address: AccountId,
    pub admin: Option<AccountId>,
    pub escrow_counter: Option<u64>,
    pub paused: bool,
    /// Whether the pause flag has ever been written.
    pub pause_recorded: bool,
    pub max_milestones: Option<u32>,
    pub storage_version: Option<u32>,
    pub migration_cursor: Option<u64>,
    pub oracle: Option<AccountId>,
    pub fallback_oracle: Option<AccountId>,
    pub wormhole_bridge: Option<AccountId>,
    pub wrapped_tokens: Map<AccountId, WrappedTokenInfo>,
    pub escrows: Map<u64, EscrowRecordView>,
    pub legacy_escrows: Map<u64, EscrowStateV1View>,
    pub reputations: Map<AccountId, ReputationRecord>,
    pub meta_tx_nonces: Map<AccountId, u64>,
}

impl View for EscrowContract {
    type V = EscrowContractView;

    open spec fn view(&self) -> EscrowContractView {
        EscrowContractView {
            contract_address: self.contract_address,
            admin: self.admin,
            escrow_counter: self.escrow_counter,
            paused: self.paused,
            pause_recorded: self.pause_recorded,
            max_milestones: self.max_milestones,
            storage_version: self.storage_version,
            migration_cursor: self.migration_cursor,
            oracle: self.oracle,
            fallback_oracle: self.fallback_oracle,
            wormhole_bridge: self.wormhole_bridge,
            wrapped_tokens: self.wrapped_tokens@,
            escrows: self.escrows@.map_values(|r: EscrowRecord| r@),
            legacy_escrows: self.legacy_escrows@.map_values(|r: EscrowStateV1| r@),
            reputations: self.reputations@,
            meta_tx_nonces: self.meta_tx_nonces@,
        }
    }
}

impl EscrowContractView {
    /// Every stored escrow, and every legacy entry, is consistent.
    pub open spec fn wf(self) -> bool {
        &&& self.milestone_cap() <= crate::constants::MAX_MILESTONE_CAP
        &&& forall|id: u64| #[trigger] self.escrows.contains_key(id) ==> record_wf(self.escrows[id])
        &&& forall|id: u64| #[trigger] self.legacy_escrows.contains_key(id) ==> legacy_wf(id, self.legacy_escrows[id])
        &&& forall|a: AccountId| #[trigger] self.reputations.contains_key(a) ==> self.reputations[a].address == a
    }

    /// Next escrow id (the counter, 0 when unset).
    pub open spec fn counter(self) -> u64 {
        match self.escrow_counter {
            Some(c) => c,
            None => 0,
        }
    }

    /// Milestone cap in force.
    pub open spec fn milestone_cap(self) -> u32 {
        match self.max_milestones {
            Some(m) => m,
            None => crate::constants::MAX_MILESTONES,
        }
    }

    /// The reputation of `a`, or the fresh record reported for an unknown account at `now`.
    pub open spec fn reputation_of(self, a: AccountId, now: u64) -> ReputationRecord {
        if self.reputations.contains_key(a) {
            self.reputations[a]
        } else {
            fresh_reputation(a, now)
        }
    }
}

/// Reputation reported for an account that has none stored.
pub open spec fn fresh_reputation(a: AccountId, now: u64) -> ReputationRecord {
    ReputationRecord {
        address: a,
        total_score: 0,
        completed_escrows: 0,
        disputed_escrows: 0,
        disputes_won: 0,
        total_volume: 0,
        slash_count: 0,
        total_slashed: 0,
        last_updated: now,
    }
}

/// The result of an entry point that succeeds: what it returns, the state it
/// leaves, and the token transfers it asks for.
pub struct Step<V> {
    pub value: V,
    pub state: EscrowContractView,
    pub transfers: Seq<Transfer>,
}

/// A call's result `r`, state before and after (`s0`, `s1`) and outbox before
/// and after (`t0`, `t1`) are those that `o` prescribes: on success the state
/// and the appended transfers of the step, on failure the error with nothing changed.
pub open spec fn follows<V>(
    r: Result<V, EscrowError>,
    o: Result<Step<V>, EscrowError>,
    s0: EscrowContractView,
    s1: EscrowContractView,
    t0: Seq<Transfer>,
    t1: Seq<Transfer>,
) -> bool {
    match o {
        Ok(step) => r == Ok::<V, EscrowError>(step.value) && s1 == step.state && t1 == t0 + step.transfers,
        Err(e) => r == Err::<V, EscrowError>(e) && s1 == s0 && t1 == t0,
    }
}

// ── Rent settlement on access ──────────────────────────────────────────────────

/// Outcome of settling an escrow's rent: what is collected, and the reserve
/// and checkpoint that remain.
#[derive(Clone, Copy, Debug)]
pub struct RentPlan {
    pub collectable: i128,
    pub rent_balance: i128,
    pub last_collection: u64,
}

/// Settling rent when an escrow is accessed at `now`: a missing escrow, or one
/// whose rent has run out, is not found; otherwise the periods due are
/// collected, which needs an admin to pay them to when anything is due.
pub open spec fn settle_spec(s: EscrowContractView, id: u64, now: u64) -> Result<RentPlan, EscrowError> {
    if !s.escrows.contains_key(id) {
        Err(EscrowError::EscrowNotFound)
    } else {
        let rec = s.escrows[id];
        let per = per_period(rec);
        let b = rec.meta.rent_balance;
        let l = rec.meta.last_rent_collection_at;
        if rent_expired_spec(b, l, now, per) {
            Err(EscrowError::EscrowNotFound)
        } else if collectable_spec(b, l, now, per) > 0 && s.admin is None {
            Err(EscrowError::NotInitialized)
        } else {
            Ok(RentPlan {
                collectable: collectable_spec(b, l, now, per) as i128,
                rent_balance: balance_after_spec(b, l, now, per) as i128,
                last_collection: last_after_spec(b, l, now, per) as u64,
            })
        }
    }
}

/// Accessing escrow `id` at `now` involves no arithmetic overflow: either the
/// access fails before collecting, or the collection is well defined.
pub open spec fn settle_fits(s: EscrowContractView, id: u64, now: u64) -> bool {
    s.escrows.contains_key(id) ==> {
        let rec = s.escrows[id];
        let per = per_period(rec);
        let b = rec.meta.rent_balance;
        let l = rec.meta.last_rent_collection_at;
        rent_expired_spec(b, l, now, per) || collection_fits(b, l, now, per)
    }
}

/// The record with its rent settled according to `p`.
pub open spec fn settled_record(rec: EscrowRecordView, p: RentPlan) -> EscrowRecordView {
    EscrowRecordView {
        meta: EscrowMetaView {
            rent_balance: p.rent_balance,
            last_rent_collection_at: p.last_collection,
            ..rec.meta
        },
        ..rec
    }
}

/// Transfer of the collected rent to the admin, if anything was collected.
pub open spec fn rent_transfers(s: EscrowContractView, rec: EscrowRecordView, p: RentPlan) -> Seq<Transfer> {
    if p.collectable > 0 {
        seq![Transfer {
            token: rec.meta.token,
            from: s.contract_address,
            to: s.admin->0,
            amount: p.collectable,
        }]
    } else {
        seq![]
    }
}

/// `s` without escrow `id`.
pub open spec fn without_escrow(s: EscrowContractView, id: u64) -> EscrowContractView {
    EscrowContractView { escrows: s.escrows.remove(id), ..s }
}

/// `s` with escrow `id` replaced by `rec`.
pub open spec fn with_escrow(s: EscrowContractView, id: u64, rec: EscrowRecordView) -> EscrowContractView {
    EscrowContractView { escrows: s.escrows.insert(id, rec), ..s }
}

pub proof fn lemma_view_insert<V: View>(m: Map<u64, V>, k: u64, v: V)
    ensures
        m.insert(k, v).map_values(|r: V| r@) =~= m.map_values(|r: V| r@).insert(k, v@),
{
}

pub proof fn lemma_view_remove<V: View>(m: Map<u64, V>, k: u64)
    ensures
        m.remove(k).map_values(|r: V| r@) =~= m.map_values(|r: V| r@).remove(k),
{
}

pub proof fn lemma_milestones_update(ms: Seq<Milestone>, k: int, m: Milestone)
    requires
        0 <= k < ms.len(),
    ensures
        view_milestones(ms.update(k, m)) =~= view_milestones(ms).update(k, m@),
{
}

pub proof fn lemma_milestones_push(ms: Seq<Milestone>, m: Milestone)
    ensures
        view_milestones(ms.push(m)) =~= view_milestones(ms).push(m@),
{
}

impl EscrowContract {
    /// A fresh, uninitialized contract deployed at `contract_address`.
    pub fn new(contract_address: AccountId) -> (r: Self)
        ensures
            r@.wf(),
            r@.contract_address == contract_address,
            r@.admin is None,
            r@.escrow_counter is None,
            !r@.paused,
            !r@.pause_recorded,
            r@.max_milestones is None,
            r@.storage_version is None,
            r@.migration_cursor is None,
            r@.oracle is None,
            r@.fallback_oracle is None,
            r@.wormhole_bridge is None,
            r@.wrapped_tokens.is_empty(),
            r@.escrows.is_empty(),
            r@.legacy_escrows.is_empty(),
            r@.reputations.is_empty(),
            r@.meta_tx_nonces.is_empty(),
    {
        let r = EscrowContract {
            contract_address,
            admin: None,
            escrow_counter: None,
            paused: false,
            pause_recorded: false,
            max_milestones: None,
            storage_version: None,
            migration_cursor: None,
            oracle: None,
            fallback_oracle: None,
            wormhole_bridge: None,
            wrapped_tokens: HashMap::new(),
            escrows: HashMap::new(),
            legacy_escrows: HashMap::new(),
            reputations: HashMap::new(),
            meta_tx_nonces: HashMap::new(),
        };
        assert(r@.escrows =~= Map::empty());
        assert(r@.legacy_escrows =~= Map::empty());
        r
    }

    /// Number of optional entries stored for a record.
    pub fn extra_entries_of(rec: &EscrowRecord) -> (r: u32)
        ensures
            r == extra_entries(rec@),
            r <= 3,
    {
        let mut n: u32 = 0;
        if rec.recurring.is_some() {
            n = n + 1;
        }
        if rec.cancellation.is_some() {
            n = n + 1;
        }
        if rec.slash.is_some() {
            n = n + 1;
        }
        n
    }

    /// Rent per period of a record.
    pub fn per_period_of(rec: &EscrowRecord) -> (r: i128)
        ensures
            r == per_period(rec@),
            1 <= r <= 0x1_0000_0004,
    {
        let extra = Self::extra_entries_of(rec);
        ContractStorage::rent_due_per_period(rec.meta.milestone_count, extra)
    }

    /// Whether accessing escrow `id` at `now` stays within the integer ranges
    /// (`settle_fits`); a caller outside the verified code tests this first.
    pub fn access_fits(&self, id: u64, now: u64) -> (r: bool)
        requires
            self@.wf(),
        ensures
            r == settle_fits(self@, id, now),
    {
        match self.escrows.get(&id) {
            None => true,
            Some(rec) => {
                proof {
                    assert(self@.escrows.contains_key(id));
                    assert(self@.escrows[id] == rec@);
                    assert(record_wf(rec@));
                }
                let per = Self::per_period_of(rec);
                let b = rec.meta.rent_balance;
                let l = rec.meta.last_rent_collection_at;
                if ContractStorage::rent_has_expired(b, l, now, per) {
                    true
                } else {
                    Self::collection_fits_for(b, l, now, per)
                }
            },
        }
    }

    /// Whether collecting the rent of escrow `id` at `now` stays within the
    /// integer ranges (`collect_fits`).
    pub fn rent_collection_fits(&self, id: u64, now: u64) -> (r: bool)
        requires
            self@.wf(),
        ensures
            r == crate::escrow_views::collect_fits(self@, id, now),
    {
        match self.escrows.get(&id) {
            None => true,
            Some(rec) => {
                proof {
                    assert(self@.escrows.contains_key(id));
                    assert(self@.escrows[id] == rec@);
                    assert(record_wf(rec@));
                }
                let per = Self::per_period_of(rec);
                Self::collection_fits_for(rec.meta.rent_balance, rec.meta.last_rent_collection_at, now, per)
            },
        }
    }

    /// `collection_fits` of a reserve.
    fn collection_fits_for(b: i128, l: u64, now: u64, per: i128) -> (r: bool)
        requires
            1 <= per <= 0x1_0000_0004,
            b >= 0,
        ensures
            r == collection_fits(b, l, now, per as int),
    {
        let (_c, nb, nl) = ContractStorage::collect_amounts(b, l, now, per);
        if now <= l || (now - l) / RENT_PERIOD_SECONDS == 0 {
            true
        } else {
            ContractStorage::expiry_fits(nb, nl, per)
        }
    }

    /// Settles the rent of escrow `id` at `now`, without changing anything:
    /// the plan is applied by the caller once the call is known to succeed.
    pub(crate) fn plan_rent(&self, id: u64, now: u64) -> (r: Result<RentPlan, EscrowError>)
        requires
            self@.wf(),
            settle_fits(self@, id, now),
        ensures
            r == settle_spec(self@, id, now),
            r is Ok ==> r->Ok_0.rent_balance >= 0,
    {
        let rec = match self.escrows.get(&id) {
            Some(rec) => rec,
            None => return Err(EscrowError::EscrowNotFound),
        };
        proof {
            assert(self@.escrows[id] == rec@);
            assert(record_wf(rec@));
        }
        let per = Self::per_period_of(rec);
        let b = rec.meta.rent_balance;
        let l = rec.meta.last_rent_collection_at;
        if ContractStorage::rent_has_expired(b, l, now, per) {
            return Err(EscrowError::EscrowNotFound);
        }
        let (c, nb, nl) = ContractStorage::collect_amounts(b, l, now, per);
        if c > 0 && self.admin.is_none() {
            return Err(EscrowError::NotInitialized);
        }
        Ok(RentPlan { collectable: c, rent_balance: nb, last_collection: nl })
    }

    /// Applies a rent plan to a record taken out of the map, and asks for the
    /// transfer of the collected rent.
    pub(crate) fn apply_rent(&self, rec: &mut EscrowRecord, p: RentPlan, transfers: &mut Vec<Transfer>)
        requires
            p.collectable > 0 ==> self@.admin is Some,
        ensures
            final(rec)@ == settled_record(old(rec)@, p),
            final(transfers)@ == old(transfers)@ + rent_transfers(self@, old(rec)@, p),
    {
        rec.meta.rent_balance = p.rent_balance;
        rec.meta.last_rent_collection_at = p.last_collection;
        if p.collectable > 0 {
            let admin = match self.admin {
                Some(a) => a,
                None => rec.meta.token,
            };
            transfers.push(Transfer {
                token: rec.meta.token,
                from: self.contract_address,
                to: admin,
                amount: p.collectable,
            });
        }
        proof {
            assert(final(transfers)@ =~= old(transfers)@ + rent_transfers(self@, old(rec)@, p));
            assert(final(rec)@.meta =~= settled_record(old(rec)@, p).meta);
        }
    }

    /// Takes escrow `id` out of the map (it must be there).
    pub(crate) fn take_escrow(&mut self, id: u64) -> (r: EscrowRecord)
        requires
            old(self)@.escrows.contains_key(id),
        ensures
            r@ == old(self)@.escrows[id],
            final(self)@ == without_escrow(old(self)@, id),
    {
        let r = self.escrows.remove(&id);
        proof {
            lemma_view_remove(old(self).escrows@, id);
            assert(self@.escrows =~= old(self)@.escrows.remove(id));
        }
        r.unwrap()
    }

    /// Puts a record back under `id`.
    pub(crate) fn put_escrow(&mut self, id: u64, rec: EscrowRecord)
        ensures
            final(self)@ == with_escrow(old(self)@, id, rec@),
    {
        self.escrows.insert(id, rec);
        proof {
            lemma_view_insert(old(self).escrows@, id, rec);
        }
    }
}

/// Whether `v` holds `a`.
pub fn contains_account(v: &Vec<AccountId>, a: AccountId) -> (r: bool)
    ensures
        r == v@.contains(a),
{
    let mut i: usize = 0;
    while i < v.len()
        invariant
            0 <= i <= v@.len(),
            forall|j: int| 0 <= j < i ==> v@[j] != a,
        decreases v@.len() - i,
    {
        if v[i] == a {
            assert(v@[i as int] == a);
            return true;
        }
        i = i + 1;
    }
    proof {
        if v@.contains(a) {
            let j = choose|j: int| 0 <= j < v@.len() && v@[j] == a;
            assert(v@[j] != a);
        }
    }
    false
}

/// Replacing a record by a consistent one keeps the state consistent.
pub proof fn lemma_with_escrow_wf(s: EscrowContractView, id: u64, rec: EscrowRecordView)
    requires
        s.wf(),
        record_wf(rec),
    ensures
        with_escrow(s, id, rec).wf(),
{
    let t = with_escrow(s, id, rec);
    assert forall|k: u64| #[trigger] t.escrows.contains_key(k) implies record_wf(t.escrows[k]) by {
        if k != id {
            assert(s.escrows.contains_key(k));
        }
    }
}

/// A settled record is as consistent as the record was.
pub proof fn lemma_settled_wf(rec: EscrowRecordView, p: RentPlan)
    requires
        record_wf(rec),
        p.rent_balance >= 0,
    ensures
        record_wf(settled_record(rec, p)),
        per_period(settled_record(rec, p)) == per_period(rec),
{
}

/// Taking a record out and putting one back under the same id replaces it.
pub proof fn lemma_take_put(s: EscrowContractView, id: u64, rec: EscrowRecordView)
    ensures
        with_escrow(without_escrow(s, id), id, rec) == with_escrow(s, id, rec),
{
    assert(with_escrow(without_escrow(s, id), id, rec).escrows =~= with_escrow(s, id, rec).escrows);
}

/// The rent settlement of an entry point that accesses escrow `id` at `now`,
/// with the record as it stands once settled.
pub open spec fn access_spec(s: EscrowContractView, id: u64, now: u64) -> Result<(RentPlan, EscrowRecordView), EscrowError> {
    match settle_spec(s, id, now) {
        Err(e) => Err(e),
        Ok(p) => Ok((p, settled_record(s.escrows[id], p))),
    }
}

/// Lock-time check: funds stay locked before `lock_time`.
pub open spec fn lock_check(lock_time: Option<u64>, now: u64) -> Result<(), EscrowError> {
    match lock_time {
        Some(lt) => if now < lt { Err(EscrowError::LockTimeNotExpired) } else { Ok(()) },
        None => Ok(()),
    }
}

/// Timelock check: a started timelock must have run its full duration.
pub open spec fn timelock_check(tl: Option<Timelock>, now: u64) -> Result<(), EscrowError> {
    match tl {
        Some(t) => if t.start_ledger + t.duration_ledger > u64::MAX {
            Err(EscrowError::InvalidTimelockDuration)
        } else if now < t.start_ledger + t.duration_ledger {
            Err(EscrowError::TimelockNotExpired)
        } else {
            Ok(())
        },
        None => Ok(()),
    }
}

/// Whether `mid` names a stored milestone of `rec`.
pub open spec fn has_milestone(rec: EscrowRecordView, mid: u32) -> bool {
    mid < rec.milestones.len()
}

impl EscrowContract {
    /// Lock-time check at `now`.
    pub fn check_lock_time_expired(lock_time: Option<u64>, now: u64) -> (r: Result<(), EscrowError>)
        ensures
            r == lock_check(lock_time, now),
    {
        if let Some(lt) = lock_time {
            if now < lt {
                return Err(EscrowError::LockTimeNotExpired);
            }
        }
        Ok(())
    }

    /// Timelock check at `now`.
    pub fn check_timelock_expired(timelock: Option<Timelock>, now: u64) -> (r: Result<(), EscrowError>)
        ensures
            r == timelock_check(timelock, now),
    {
        if let Some(tl) = timelock {
            let expiry = match tl.start_ledger.checked_add(tl.duration_ledger) {
                Some(e) => e,
                None => return Err(EscrowError::InvalidTimelockDuration),
            };
            if now < expiry {
                return Err(EscrowError::TimelockNotExpired);
            }
        }
        Ok(())
    }

    /// The milestone cap in force.
    pub fn effective_max_milestones(&self) -> (r: u32)
        ensures
            r == self@.milestone_cap(),
    {
        match self.max_milestones {
            Some(m) => m,
            None => crate::constants::MAX_MILESTONES,
        }
    }

    /// Borrows escrow `id` (it must be stored).
    pub(crate) fn record_ref(&self, id: u64) -> (r: &EscrowRecord)
        requires
            self@.escrows.contains_key(id),
        ensures
            r@ == self@.escrows[id],
    {
        self.escrows.get(&id).unwrap()
    }
}

} // verus!
