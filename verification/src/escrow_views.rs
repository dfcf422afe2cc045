//! Rent collection and top-ups, and the read entry points (which settle rent
//! on access like every other entry point).

use vstd::prelude::*;
use crate::errors::EscrowError;
use crate::escrow::{
    CancellationRequestView, EscrowContract, EscrowContractView, EscrowMetaView, EscrowRecordView,
    MilestoneView, RentPlan, SlashRecordView, Step, access_spec, extra_entries, follows,
    lemma_settled_wf, lemma_take_put, lemma_view_remove, lemma_with_escrow_wf, per_period,
    record_wf, rent_transfers, settle_fits, settled_record, view_milestones, with_escrow,
    without_escrow,
};
use crate::escrow_cancel::with_meta;
use crate::escrow_recurring::fits_i128;
use crate::rent::{
    ContractStorage, balance_after_spec, collectable_spec, collection_fits, last_after_spec,
    rent_expired_spec, reserve_spec,
};
use crate::types::{
    AccountId, ApprovalRecord, CancellationRequest, DataKey, EscrowMeta, EscrowState, Milestone,
    PackedDataKey, RecurringPaymentConfig, RecurringScheduleStatus, SlashRecord, Transfer,
};

verus! {

/// Collecting the rent of escrow `id` at `now` is well defined.
pub open spec fn collect_fits(s: EscrowContractView, id: u64, now: u64) -> bool {
    s.escrows.contains_key(id) ==> {
        let rec = s.escrows[id];
        collection_fits(rec.meta.rent_balance, rec.meta.last_rent_collection_at, now, per_period(rec))
    }
}

/// Outcome of `collect_rent`: the rent due is paid to the admin (at most the
/// reserve); an escrow whose reserve no longer covers the elapsed periods is
/// then expired: its remaining balance and leftover reserve go back to the
/// client and all its entries are removed. Returns the amount collected.
pub open spec fn collect_rent_spec(s: EscrowContractView, now: u64, id: u64) -> Result<Step<i128>, EscrowError> {
    if s.admin is None {
        Err(EscrowError::NotInitialized)
    } else if !s.escrows.contains_key(id) {
        Err(EscrowError::EscrowNotFound)
    } else {
        let rec = s.escrows[id];
        let per = per_period(rec);
        let b = rec.meta.rent_balance;
        let l = rec.meta.last_rent_collection_at;
        let c = collectable_spec(b, l, now, per);
        let nb = balance_after_spec(b, l, now, per) as i128;
        let nl = last_after_spec(b, l, now, per) as u64;
        let p = RentPlan { collectable: c as i128, rent_balance: nb, last_collection: nl };
        let t = rent_transfers(s, rec, p);
        if rent_expired_spec(nb, nl, now, per) {
            let refund = rec.meta.remaining_balance + nb;
            if !fits_i128(refund) {
                Err(EscrowError::AmountMismatch)
            } else {
                Ok(Step {
                    value: c as i128,
                    state: without_escrow(s, id),
                    transfers: t + if refund > 0 {
                        seq![Transfer { token: rec.meta.token, from: s.contract_address, to: rec.meta.client, amount: refund as i128 }]
                    } else {
                        Seq::empty()
                    },
                })
            }
        } else {
            Ok(Step { value: c as i128, state: with_escrow(s, id, settled_record(rec, p)), transfers: t })
        }
    }
}

/// Outcome of `top_up_rent`: the client prepays `periods` more periods of rent.
/// Returns the amount paid.
pub open spec fn top_up_spec(s: EscrowContractView, now: u64, caller: AccountId, id: u64, periods: u64) -> Result<Step<i128>, EscrowError> {
    if s.admin is None {
        Err(EscrowError::NotInitialized)
    } else if s.paused {
        Err(EscrowError::ContractPaused)
    } else {
        match access_spec(s, id, now) {
            Err(e) => Err(e),
            Ok((p, rec)) => if caller != rec.meta.client {
                Err(EscrowError::ClientOnly)
            } else if periods == 0 {
                Ok(Step { value: 0, state: with_escrow(s, id, rec), transfers: rent_transfers(s, s.escrows[id], p) })
            } else {
                let amount = per_period(rec) * periods;
                if !fits_i128(rec.meta.rent_balance + amount) {
                    Err(EscrowError::AmountMismatch)
                } else {
                    let meta = EscrowMetaView { rent_balance: (rec.meta.rent_balance + amount) as i128, ..rec.meta };
                    Ok(Step {
                        value: amount as i128,
                        state: with_escrow(s, id, with_meta(rec, meta)),
                        transfers: rent_transfers(s, s.escrows[id], p)
                            + seq![Transfer { token: rec.meta.token, from: caller, to: s.contract_address, amount: amount as i128 }],
                    })
                }
            },
        }
    }
}

/// Outcome of `withdraw_rent_overpayment`: the client withdraws reserve above
/// what the escrow's entries need for a full reserve period.
pub open spec fn withdraw_rent_spec(s: EscrowContractView, now: u64, caller: AccountId, id: u64, amount: i128) -> Result<Step<()>, EscrowError> {
    if s.admin is None {
        Err(EscrowError::NotInitialized)
    } else if s.paused {
        Err(EscrowError::ContractPaused)
    } else {
        match access_spec(s, id, now) {
            Err(e) => Err(e),
            Ok((p, rec)) => {
                let min_reserve = reserve_spec(1 + rec.meta.milestone_count + extra_entries(rec));
                let over = rec.meta.rent_balance - min_reserve;
                if caller != rec.meta.client {
                    Err(EscrowError::ClientOnly)
                } else if amount <= 0 || amount > over {
                    Err(EscrowError::InvalidEscrowAmount)
                } else {
                    let meta = EscrowMetaView { rent_balance: (rec.meta.rent_balance - amount) as i128, ..rec.meta };
                    Ok(Step {
                        value: (),
                        state: with_escrow(s, id, with_meta(rec, meta)),
                        transfers: rent_transfers(s, s.escrows[id], p)
                            + seq![Transfer { token: rec.meta.token, from: s.contract_address, to: caller, amount }],
                    })
                }
            },
        }
    }
}

/// `st` shows escrow `rec`: its header fields and its milestones.
pub open spec fn shows_escrow(st: EscrowState, rec: EscrowRecordView) -> bool {
    let m = rec.meta;
    &&& st.escrow_id == m.escrow_id
    &&& st.client == m.client
    &&& st.freelancer == m.freelancer
    &&& st.token == m.token
    &&& st.total_amount == m.total_amount
    &&& st.remaining_balance == m.remaining_balance
    &&& st.status == m.status
    &&& view_milestones(st.milestones@) == rec.milestones
    &&& st.arbiter == m.arbiter
    &&& st.buyer_signers@ == m.buyer_signers
    &&& st.created_at == m.created_at
    &&& st.deadline == m.deadline
    &&& st.lock_time == m.lock_time
    &&& st.lock_time_extension == m.lock_time_extension
    &&& st.timelock == m.timelock
    &&& st.brief_hash == m.brief_hash
    &&& st.multisig_approvers@ == m.buyer_signers
    &&& st.multisig_weights@ == Seq::<u32>::empty()
    &&& st.multisig_threshold == 0
}

/// A read entry point: on success it returns what `shows` accepts about the
/// settled record, and commits the rent settlement of the access.
pub open spec fn read_follows<V>(
    r: Result<V, EscrowError>,
    s0: EscrowContractView,
    s1: EscrowContractView,
    t0: Seq<Transfer>,
    t1: Seq<Transfer>,
    id: u64,
    now: u64,
    missing: Option<EscrowError>,
) -> bool {
    match access_spec(s0, id, now) {
        Err(e) => r == Err::<V, EscrowError>(e) && s1 == s0 && t1 == t0,
        Ok((p, rec)) => match missing {
            Some(e) => r == Err::<V, EscrowError>(e) && s1 == s0 && t1 == t0,
            None => r is Ok && s1 == with_escrow(s0, id, rec) && t1 == t0 + rent_transfers(s0, s0.escrows[id], p),
        },
    }
}

/// Copy of a list of `Copy` values.
pub fn copy_vec<T: Copy>(v: &Vec<T>) -> (r: Vec<T>)
    ensures
        r@ == v@,
{
    let mut r: Vec<T> = Vec::new();
    let mut i: usize = 0;
    while i < v.len()
        invariant
            0 <= i <= v@.len(),
            r@ == v@.take(i as int),
        decreases v@.len() - i,
    {
        r.push(v[i]);
        proof {
            assert(v@.take(i + 1) =~= v@.take(i as int).push(v@[i as int]));
        }
        i = i + 1;
    }
    assert(v@.take(v@.len() as int) =~= v@);
    r
}

/// Copy of a milestone.
pub fn copy_milestone(m: &Milestone) -> (r: Milestone)
    ensures
        r@ == m@,
{
    Milestone {
        id: m.id,
        title: copy_vec(&m.title),
        description_hash: m.description_hash,
        amount: m.amount,
        status: m.status,
        submitted_at: m.submitted_at,
        resolved_at: m.resolved_at,
        approvals: copy_vec(&m.approvals),
        rejection_reason: m.rejection_reason,
    }
}

/// Copy of an escrow header.
pub fn copy_meta(m: &EscrowMeta) -> (r: EscrowMeta)
    ensures
        r@ == m@,
{
    EscrowMeta {
        escrow_id: m.escrow_id,
        client: m.client,
        freelancer: m.freelancer,
        token: m.token,
        total_amount: m.total_amount,
        allocated_amount: m.allocated_amount,
        remaining_balance: m.remaining_balance,
        status: m.status,
        milestone_count: m.milestone_count,
        approved_count: m.approved_count,
        released_count: m.released_count,
        submitted_count: m.submitted_count,
        arbiter: m.arbiter,
        buyer_signers: copy_vec(&m.buyer_signers),
        created_at: m.created_at,
        deadline: m.deadline,
        lock_time: m.lock_time,
        lock_time_extension: m.lock_time_extension,
        timelock: m.timelock,
        brief_hash: m.brief_hash,
        rent_balance: m.rent_balance,
        last_rent_collection_at: m.last_rent_collection_at,
    }
}

impl EscrowContract {
    /// Settles the rent of escrow `id` on access and commits the settlement;
    /// fails as an access does.
    fn access_commit(&mut self, now: u64, id: u64, transfers: &mut Vec<Transfer>) -> (r: Result<(), EscrowError>)
        requires
            old(self)@.wf(),
            settle_fits(old(self)@, id, now),
        ensures
            final(self)@.wf(),
            match access_spec(old(self)@, id, now) {
                Err(e) => r == Err::<(), EscrowError>(e) && final(self)@ == old(self)@ && final(transfers)@ == old(transfers)@,
                Ok((p, rec)) => r is Ok && final(self)@ == with_escrow(old(self)@, id, rec)
                    && final(transfers)@ == old(transfers)@ + rent_transfers(old(self)@, old(self)@.escrows[id], p)
                    && final(self)@.escrows.contains_key(id),
            },
    {
        let p = match self.plan_rent(id, now) {
            Ok(p) => p,
            Err(e) => return Err(e),
        };
        let ghost s0 = self@;
        let mut rec = self.take_escrow(id);
        self.apply_rent(&mut rec, p, transfers);
        proof {
            lemma_take_put(s0, id, rec@);
            lemma_settled_wf(s0.escrows[id], p);
            lemma_with_escrow_wf(s0, id, rec@);
        }
        self.put_escrow(id, rec);
        Ok(())
    }

    /// Collects the rent due on escrow `id` and expires it when its reserve
    /// has run out. Returns the amount collected.
    pub fn collect_rent(&mut self, now: u64, id: u64, transfers: &mut Vec<Transfer>) -> (r: Result<i128, EscrowError>)
        requires
            old(self)@.wf(),
            collect_fits(old(self)@, id, now),
        ensures
            final(self)@.wf(),
            follows(r, collect_rent_spec(old(self)@, now, id), old(self)@, final(self)@, old(transfers)@, final(transfers)@),
    {
        if self.admin.is_none() {
            return Err(EscrowError::NotInitialized);
        }
        if !self.escrows.contains_key(&id) {
            return Err(EscrowError::EscrowNotFound);
        }
        let ghost s0 = self@;
        let rec = self.record_ref(id);
        proof { assert(record_wf(rec@)); }
        let per = Self::per_period_of(rec);
        let (c, nb, nl) = ContractStorage::collect_amounts(rec.meta.rent_balance, rec.meta.last_rent_collection_at, now, per);
        let p = RentPlan { collectable: c, rent_balance: nb, last_collection: nl };
        let expired = ContractStorage::rent_has_expired(nb, nl, now, per);
        let remaining = rec.meta.remaining_balance;
        let client = rec.meta.client;
        let token = rec.meta.token;
        if expired {
            let refund = match remaining.checked_add(nb) {
                Some(v) => v,
                None => return Err(EscrowError::AmountMismatch),
            };
            let rec = self.take_escrow(id);
            self.apply_rent_transfer(token, p, transfers);
            if refund > 0 {
                transfers.push(Transfer { token, from: self.contract_address, to: client, amount: refund });
            }
            proof {
                let o = collect_rent_spec(s0, now, id);
                assert(o is Ok);
                assert(self@ == o->Ok_0.state);
                assert(final(transfers)@ =~= old(transfers)@ + o->Ok_0.transfers);
                assert forall|k: u64| #[trigger] self@.escrows.contains_key(k) implies record_wf(self@.escrows[k]) by {
                    assert(s0.escrows.contains_key(k));
                }
            }
            return Ok(c);
        }
        let mut rec = self.take_escrow(id);
        self.apply_rent(&mut rec, p, transfers);
        proof {
            lemma_take_put(s0, id, rec@);
            lemma_settled_wf(s0.escrows[id], p);
            lemma_with_escrow_wf(s0, id, rec@);
        }
        self.put_escrow(id, rec);
        Ok(c)
    }

    /// Asks for the transfer of collected rent to the admin, if anything was collected.
    fn apply_rent_transfer(&self, token: AccountId, p: RentPlan, transfers: &mut Vec<Transfer>)
        requires
            p.collectable > 0 ==> self@.admin is Some,
        ensures
            final(transfers)@ == old(transfers)@ + (if p.collectable > 0 {
                seq![Transfer { token, from: self@.contract_address, to: self@.admin->0, amount: p.collectable }]
            } else {
                Seq::<Transfer>::empty()
            }),
    {
        if p.collectable > 0 {
            let admin = match self.admin {
                Some(a) => a,
                None => token,
            };
            transfers.push(Transfer { token, from: self.contract_address, to: admin, amount: p.collectable });
        }
        proof {
            assert(final(transfers)@ =~= old(transfers)@ + (if p.collectable > 0 {
                seq![Transfer { token, from: self@.contract_address, to: self@.admin->0, amount: p.collectable }]
            } else {
                Seq::<Transfer>::empty()
            }));
        }
    }

    /// The client prepays `additional_periods` more periods of rent; returns the amount.
    pub fn top_up_rent(&mut self, now: u64, caller: AccountId, id: u64, additional_periods: u64, transfers: &mut Vec<Transfer>) -> (r: Result<i128, EscrowError>)
        requires
            old(self)@.wf(),
            settle_fits(old(self)@, id, now),
        ensures
            final(self)@.wf(),
            follows(r, top_up_spec(old(self)@, now, caller, id, additional_periods), old(self)@, final(self)@, old(transfers)@, final(transfers)@),
    {
        if self.admin.is_none() {
            return Err(EscrowError::NotInitialized);
        }
        if self.paused {
            return Err(EscrowError::ContractPaused);
        }
        let p = match self.plan_rent(id, now) {
            Ok(p) => p,
            Err(e) => return Err(e),
        };
        let ghost s0 = self@;
        let rec = self.record_ref(id);
        if caller != rec.meta.client {
            return Err(EscrowError::ClientOnly);
        }
        let per = Self::per_period_of(rec);
        let token = rec.meta.token;
        if additional_periods == 0 {
            let mut rec = self.take_escrow(id);
            self.apply_rent(&mut rec, p, transfers);
            proof {
                lemma_take_put(s0, id, rec@);
                lemma_settled_wf(s0.escrows[id], p);
                lemma_with_escrow_wf(s0, id, rec@);
            }
            self.put_escrow(id, rec);
            return Ok(0);
        }
        assert(per * additional_periods <= 0x1_0000_0004 * 0xffff_ffff_ffff_ffff) by (nonlinear_arith)
            requires 1 <= per <= 0x1_0000_0004, additional_periods <= 0xffff_ffff_ffff_ffff;
        let top_up = per * (additional_periods as i128);
        let new_rent = match p.rent_balance.checked_add(top_up) {
            Some(v) => v,
            None => return Err(EscrowError::AmountMismatch),
        };
        let mut rec = self.take_escrow(id);
        self.apply_rent(&mut rec, p, transfers);
        transfers.push(Transfer { token, from: caller, to: self.contract_address, amount: top_up });
        rec.meta.rent_balance = new_rent;
        proof {
            let o = top_up_spec(s0, now, caller, id, additional_periods);
            assert(o is Ok);
            assert(rec@.meta =~= o->Ok_0.state.escrows[id].meta);
            assert(rec@ == o->Ok_0.state.escrows[id]);
            lemma_take_put(s0, id, rec@);
            lemma_settled_wf(s0.escrows[id], p);
            lemma_with_escrow_wf(s0, id, rec@);
        }
        self.put_escrow(id, rec);
        proof {
            let o = top_up_spec(s0, now, caller, id, additional_periods);
            assert(final(transfers)@ =~= old(transfers)@ + o->Ok_0.transfers);
        }
        Ok(top_up)
    }

    /// The client withdraws `amount` of reserve above the full reserve of the escrow's entries.
    pub fn withdraw_rent_overpayment(&mut self, now: u64, caller: AccountId, id: u64, amount: i128, transfers: &mut Vec<Transfer>) -> (r: Result<(), EscrowError>)
        requires
            old(self)@.wf(),
            settle_fits(old(self)@, id, now),
        ensures
            final(self)@.wf(),
            follows(r, withdraw_rent_spec(old(self)@, now, caller, id, amount), old(self)@, final(self)@, old(transfers)@, final(transfers)@),
    {
        if self.admin.is_none() {
            return Err(EscrowError::NotInitialized);
        }
        if self.paused {
            return Err(EscrowError::ContractPaused);
        }
        let p = match self.plan_rent(id, now) {
            Ok(p) => p,
            Err(e) => return Err(e),
        };
        let ghost s0 = self@;
        let rec = self.record_ref(id);
        if caller != rec.meta.client {
            return Err(EscrowError::ClientOnly);
        }
        let extra = Self::extra_entries_of(rec);
        let entries = 1 + (rec.meta.milestone_count as i128) + (extra as i128);
        let min_reserve = ContractStorage::reserve_for_entries(entries);
        let overpayment = p.rent_balance - min_reserve;
        if amount <= 0 || amount > overpayment {
            return Err(EscrowError::InvalidEscrowAmount);
        }
        let token = rec.meta.token;
        let mut rec = self.take_escrow(id);
        self.apply_rent(&mut rec, p, transfers);
        rec.meta.rent_balance = p.rent_balance - amount;
        transfers.push(Transfer { token, from: self.contract_address, to: caller, amount });
        proof {
            let o = withdraw_rent_spec(s0, now, caller, id, amount);
            assert(o is Ok);
            assert(rec@.meta =~= o->Ok_0.state.escrows[id].meta);
            assert(rec@ == o->Ok_0.state.escrows[id]);
            lemma_take_put(s0, id, rec@);
            lemma_settled_wf(s0.escrows[id], p);
            assert(record_wf(rec@));
            lemma_with_escrow_wf(s0, id, rec@);
        }
        self.put_escrow(id, rec);
        proof {
            let o = withdraw_rent_spec(s0, now, caller, id, amount);
            assert(final(transfers)@ =~= old(transfers)@ + o->Ok_0.transfers);
        }
        Ok(())
    }

    /// Full view of escrow `id`: header and milestones.
    pub fn get_escrow(&mut self, now: u64, id: u64, transfers: &mut Vec<Transfer>) -> (r: Result<EscrowState, EscrowError>)
        requires
            old(self)@.wf(),
            settle_fits(old(self)@, id, now),
        ensures
            final(self)@.wf(),
            read_follows(r, old(self)@, final(self)@, old(transfers)@, final(transfers)@, id, now, None),
            r is Ok ==> shows_escrow(r->Ok_0, access_spec(old(self)@, id, now)->Ok_0.1),
    {
        match self.access_commit(now, id, transfers) {
            Ok(()) => {},
            Err(e) => return Err(e),
        }
        let rec = self.record_ref(id);
        proof { assert(record_wf(rec@)); }
        let mut milestones: Vec<Milestone> = Vec::new();
        let mut k: usize = 0;
        while k < rec.milestones.len()
            invariant
                0 <= k <= rec.milestones@.len(),
                view_milestones(milestones@) == view_milestones(rec.milestones@).take(k as int),
            decreases rec.milestones@.len() - k,
        {
            let m = copy_milestone(&rec.milestones[k]);
            let ghost before = milestones@;
            milestones.push(m);
            proof {
                crate::escrow::lemma_milestones_push(before, m);
                assert(view_milestones(rec.milestones@).take(k + 1) =~= view_milestones(rec.milestones@).take(k as int).push(view_milestones(rec.milestones@)[k as int]));
            }
            k = k + 1;
        }
        proof {
            assert(view_milestones(rec.milestones@).take(rec.milestones@.len() as int) =~= view_milestones(rec.milestones@));
        }
        let m = &rec.meta;
        Ok(EscrowState {
            escrow_id: m.escrow_id,
            client: m.client,
            freelancer: m.freelancer,
            token: m.token,
            total_amount: m.total_amount,
            remaining_balance: m.remaining_balance,
            status: m.status,
            milestones,
            arbiter: m.arbiter,
            buyer_signers: copy_vec(&m.buyer_signers),
            created_at: m.created_at,
            deadline: m.deadline,
            lock_time: m.lock_time,
            lock_time_extension: m.lock_time_extension,
            timelock: m.timelock,
            brief_hash: m.brief_hash,
            multisig_approvers: copy_vec(&m.buyer_signers),
            multisig_weights: Vec::new(),
            multisig_threshold: 0,
        })
    }

    /// Header of escrow `id`.
    pub fn get_escrow_meta(&mut self, now: u64, id: u64, transfers: &mut Vec<Transfer>) -> (r: Result<EscrowMeta, EscrowError>)
        requires
            old(self)@.wf(),
            settle_fits(old(self)@, id, now),
        ensures
            final(self)@.wf(),
            read_follows(r, old(self)@, final(self)@, old(transfers)@, final(transfers)@, id, now, None),
            r is Ok ==> r->Ok_0@ == access_spec(old(self)@, id, now)->Ok_0.1.meta,
    {
        match self.access_commit(now, id, transfers) {
            Ok(()) => {},
            Err(e) => return Err(e),
        }
        let rec = self.record_ref(id);
        Ok(copy_meta(&rec.meta))
    }

    /// Schedule of recurring escrow `id`.
    pub fn get_recurring_config(&mut self, now: u64, id: u64, transfers: &mut Vec<Transfer>) -> (r: Result<RecurringPaymentConfig, EscrowError>)
        requires
            old(self)@.wf(),
            settle_fits(old(self)@, id, now),
        ensures
            final(self)@.wf(),
            read_follows(r, old(self)@, final(self)@, old(transfers)@, final(transfers)@, id, now,
                if access_spec(old(self)@, id, now) is Ok && access_spec(old(self)@, id, now)->Ok_0.1.recurring is None {
                    Some(EscrowError::RecurringConfigNotFound)
                } else {
                    None
                }),
            r is Ok ==> Some(r->Ok_0) == access_spec(old(self)@, id, now)->Ok_0.1.recurring,
    {
        let found = match self.plan_rent(id, now) {
            Ok(_) => self.record_ref(id).recurring.is_some(),
            Err(e) => return Err(e),
        };
        if !found {
            return Err(EscrowError::RecurringConfigNotFound);
        }
        match self.access_commit(now, id, transfers) {
            Ok(()) => {},
            Err(e) => return Err(e),
        }
        let rec = self.record_ref(id);
        match rec.recurring {
            Some(c) => Ok(c),
            None => Err(EscrowError::RecurringConfigNotFound),
        }
    }

    /// Summary of the schedule of recurring escrow `id`.
    pub fn get_recurring_schedule_status(&mut self, now: u64, id: u64, transfers: &mut Vec<Transfer>) -> (r: Result<RecurringScheduleStatus, EscrowError>)
        requires
            old(self)@.wf(),
            settle_fits(old(self)@, id, now),
        ensures
            final(self)@.wf(),
            read_follows(r, old(self)@, final(self)@, old(transfers)@, final(transfers)@, id, now,
                if access_spec(old(self)@, id, now) is Ok && access_spec(old(self)@, id, now)->Ok_0.1.recurring is None {
                    Some(EscrowError::RecurringConfigNotFound)
                } else {
                    None
                }),
            r is Ok ==> {
                let c = access_spec(old(self)@, id, now)->Ok_0.1.recurring->0;
                r->Ok_0 == (RecurringScheduleStatus {
                    is_active: !c.paused && !c.cancelled,
                    is_paused: c.paused,
                    is_cancelled: c.cancelled,
                    next_payment_at: c.next_payment_at,
                    payments_remaining: c.payments_remaining,
                    payment_amount: c.payment_amount,
                })
            },
    {
        let c = match self.get_recurring_config(now, id, transfers) {
            Ok(c) => c,
            Err(e) => return Err(e),
        };
        Ok(RecurringScheduleStatus {
            is_active: !c.paused && !c.cancelled,
            is_paused: c.paused,
            is_cancelled: c.cancelled,
            next_payment_at: c.next_payment_at,
            payments_remaining: c.payments_remaining,
            payment_amount: c.payment_amount,
        })
    }

    /// Milestone `mid` of escrow `id`.
    pub fn get_milestone(&mut self, now: u64, id: u64, mid: u32, transfers: &mut Vec<Transfer>) -> (r: Result<Milestone, EscrowError>)
        requires
            old(self)@.wf(),
            settle_fits(old(self)@, id, now),
        ensures
            final(self)@.wf(),
            read_follows(r, old(self)@, final(self)@, old(transfers)@, final(transfers)@, id, now,
                if access_spec(old(self)@, id, now) is Ok && mid >= access_spec(old(self)@, id, now)->Ok_0.1.milestones.len() {
                    Some(EscrowError::MilestoneNotFound)
                } else {
                    None
                }),
            r is Ok ==> r->Ok_0@ == access_spec(old(self)@, id, now)->Ok_0.1.milestones[mid as int],
    {
        let found = match self.plan_rent(id, now) {
            Ok(_) => (mid as usize) < self.record_ref(id).milestones.len(),
            Err(e) => return Err(e),
        };
        if !found {
            return Err(EscrowError::MilestoneNotFound);
        }
        match self.access_commit(now, id, transfers) {
            Ok(()) => {},
            Err(e) => return Err(e),
        }
        let rec = self.record_ref(id);
        Ok(copy_milestone(&rec.milestones[mid as usize]))
    }

    /// Approvals recorded on milestone `mid` of escrow `id`.
    pub fn get_milestone_approvals(&mut self, now: u64, id: u64, mid: u32, transfers: &mut Vec<Transfer>) -> (r: Result<Vec<ApprovalRecord>, EscrowError>)
        requires
            old(self)@.wf(),
            settle_fits(old(self)@, id, now),
        ensures
            final(self)@.wf(),
            read_follows(r, old(self)@, final(self)@, old(transfers)@, final(transfers)@, id, now,
                if access_spec(old(self)@, id, now) is Ok && mid >= access_spec(old(self)@, id, now)->Ok_0.1.milestones.len() {
                    Some(EscrowError::MilestoneNotFound)
                } else {
                    None
                }),
            r is Ok ==> r->Ok_0@ == access_spec(old(self)@, id, now)->Ok_0.1.milestones[mid as int].approvals,
    {
        match self.get_milestone(now, id, mid, transfers) {
            Ok(m) => Ok(m.approvals),
            Err(e) => Err(e),
        }
    }

    /// Pending cancellation request of escrow `id`.
    pub fn get_cancellation_request(&mut self, now: u64, id: u64, transfers: &mut Vec<Transfer>) -> (r: Result<CancellationRequest, EscrowError>)
        requires
            old(self)@.wf(),
            settle_fits(old(self)@, id, now),
        ensures
            final(self)@.wf(),
            read_follows(r, old(self)@, final(self)@, old(transfers)@, final(transfers)@, id, now,
                if access_spec(old(self)@, id, now) is Ok && access_spec(old(self)@, id, now)->Ok_0.1.cancellation is None {
                    Some(EscrowError::CancellationNotFound)
                } else {
                    None
                }),
            r is Ok ==> Some(r->Ok_0@) == access_spec(old(self)@, id, now)->Ok_0.1.cancellation,
    {
        let found = match self.plan_rent(id, now) {
            Ok(_) => self.record_ref(id).cancellation.is_some(),
            Err(e) => return Err(e),
        };
        if !found {
            return Err(EscrowError::CancellationNotFound);
        }
        match self.access_commit(now, id, transfers) {
            Ok(()) => {},
            Err(e) => return Err(e),
        }
        let rec = self.record_ref(id);
        match &rec.cancellation {
            Some(c) => Ok(CancellationRequest {
                escrow_id: c.escrow_id,
                requester: c.requester,
                reason: copy_vec(&c.reason),
                requested_at: c.requested_at,
                dispute_deadline: c.dispute_deadline,
                disputed: c.disputed,
                counterparty_approved: c.counterparty_approved,
            }),
            None => Err(EscrowError::CancellationNotFound),
        }
    }

    /// Slash record of escrow `id`.
    pub fn get_slash_record(&mut self, now: u64, id: u64, transfers: &mut Vec<Transfer>) -> (r: Result<SlashRecord, EscrowError>)
        requires
            old(self)@.wf(),
            settle_fits(old(self)@, id, now),
        ensures
            final(self)@.wf(),
            read_follows(r, old(self)@, final(self)@, old(transfers)@, final(transfers)@, id, now,
                if access_spec(old(self)@, id, now) is Ok && access_spec(old(self)@, id, now)->Ok_0.1.slash is None {
                    Some(EscrowError::SlashNotFound)
                } else {
                    None
                }),
            r is Ok ==> Some(r->Ok_0@) == access_spec(old(self)@, id, now)->Ok_0.1.slash,
    {
        let found = match self.plan_rent(id, now) {
            Ok(_) => self.record_ref(id).slash.is_some(),
            Err(e) => return Err(e),
        };
        if !found {
            return Err(EscrowError::SlashNotFound);
        }
        match self.access_commit(now, id, transfers) {
            Ok(()) => {},
            Err(e) => return Err(e),
        }
        let rec = self.record_ref(id);
        match &rec.slash {
            Some(c) => Ok(SlashRecord {
                escrow_id: c.escrow_id,
                slashed_user: c.slashed_user,
                recipient: c.recipient,
                amount: c.amount,
                reason: copy_vec(&c.reason),
                slashed_at: c.slashed_at,
                disputed: c.disputed,
            }),
            None => Err(EscrowError::SlashNotFound),
        }
    }

    /// Whether instance storage holds `key`.
    pub fn instance_has(&self, key: DataKey) -> (r: bool)
        ensures
            r == match key {
                DataKey::Admin => self@.admin is Some,
                DataKey::EscrowCounter => self@.escrow_counter is Some,
                DataKey::Paused => self@.pause_recorded,
                DataKey::MaxMilestones => self@.max_milestones is Some,
                DataKey::MigrationCursor => self@.migration_cursor is Some,
                _ => false,
            },
    {
        match key {
            DataKey::Admin => self.admin.is_some(),
            DataKey::EscrowCounter => self.escrow_counter.is_some(),
            DataKey::Paused => self.pause_recorded,
            DataKey::MaxMilestones => self.max_milestones.is_some(),
            DataKey::MigrationCursor => self.migration_cursor.is_some(),
            _ => false,
        }
    }

    /// Whether persistent storage holds `key`.
    pub fn persistent_has(&self, key: DataKey) -> (r: bool)
        ensures
            r == match key {
                DataKey::Escrow(id) => self@.legacy_escrows.contains_key(id),
                DataKey::Reputation(a) => self@.reputations.contains_key(a),
                DataKey::CancellationRequest(id) => self@.escrows.contains_key(id) && self@.escrows[id].cancellation is Some,
                DataKey::SlashRecord(id) => self@.escrows.contains_key(id) && self@.escrows[id].slash is Some,
                DataKey::MetaTxNonce(a) => self@.meta_tx_nonces.contains_key(a),
                _ => false,
            },
    {
        match key {
            DataKey::Escrow(id) => self.legacy_escrows.contains_key(&id),
            DataKey::Reputation(a) => self.reputations.contains_key(&a),
            DataKey::CancellationRequest(id) => match self.escrows.get(&id) {
                Some(rec) => rec.cancellation.is_some(),
                None => false,
            },
            DataKey::SlashRecord(id) => match self.escrows.get(&id) {
                Some(rec) => rec.slash.is_some(),
                None => false,
            },
            DataKey::MetaTxNonce(a) => self.meta_tx_nonces.contains_key(&a),
            _ => false,
        }
    }

    /// Whether persistent storage holds the granular entry `key`.
    pub fn packed_has(&self, key: PackedDataKey) -> (r: bool)
        ensures
            r == match key {
                PackedDataKey::EscrowMeta(id) => self@.escrows.contains_key(id),
                PackedDataKey::Milestone(id, mid) => self@.escrows.contains_key(id) && mid < self@.escrows[id].milestones.len(),
                PackedDataKey::RecurringConfig(id) => self@.escrows.contains_key(id) && self@.escrows[id].recurring is Some,
            },
    {
        match key {
            PackedDataKey::EscrowMeta(id) => self.escrows.contains_key(&id),
            PackedDataKey::Milestone(id, mid) => match self.escrows.get(&id) {
                Some(rec) => (mid as usize) < rec.milestones.len(),
                None => false,
            },
            PackedDataKey::RecurringConfig(id) => match self.escrows.get(&id) {
                Some(rec) => rec.recurring.is_some(),
                None => false,
            },
        }
    }

    /// Raw stored header of escrow `id`, without settling rent.
    pub fn stored_meta(&self, id: u64) -> (r: Option<EscrowMeta>)
        ensures
            match r {
                Some(m) => self@.escrows.contains_key(id) && m@ == self@.escrows[id].meta,
                None => !self@.escrows.contains_key(id),
            },
    {
        match self.escrows.get(&id) {
            Some(rec) => Some(copy_meta(&rec.meta)),
            None => None,
        }
    }
}

} // verus!
