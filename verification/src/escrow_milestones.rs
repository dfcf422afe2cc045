//! Milestones: adding them, correcting titles, submitting, approving,
//! rejecting and releasing.

use vstd::prelude::*;
use crate::constants::MAX_STRING_LEN;
use crate::errors::EscrowError;
use crate::escrow::{
    EscrowContract, EscrowContractView, EscrowMetaView, EscrowRecordView, MilestoneView, Step,
    access_spec, contains_account, follows, has_milestone, lemma_milestones_push,
    lemma_milestones_update, lemma_settled_wf, lemma_take_put, lemma_with_escrow_wf, lock_check,
    record_wf, rent_transfers, settle_fits, timelock_check, with_escrow,
};
use crate::rent::{ContractStorage, reserve_spec};
use crate::types::{
    AccountId, EscrowStatus, Hash32, Milestone, Transfer, MS_APPROVED, MS_PENDING, MS_REJECTED,
    MS_RELEASED, MS_SUBMITTED,
};

verus! {

/// A fresh pending milestone.
pub open spec fn new_milestone(id: u32, title: Seq<u8>, description_hash: Hash32, amount: i128) -> MilestoneView {
    MilestoneView {
        id,
        title,
        description_hash,
        amount,
        status: MS_PENDING,
        submitted_at: None,
        resolved_at: None,
        approvals: Seq::empty(),
        rejection_reason: None,
    }
}

/// Transfer of the rent reserve for `entries` new entries from `payer`.
pub open spec fn entry_rent_transfer(s: EscrowContractView, token: AccountId, payer: AccountId, entries: int) -> Seq<Transfer> {
    if reserve_spec(entries) > 0 {
        seq![Transfer { token, from: payer, to: s.contract_address, amount: reserve_spec(entries) as i128 }]
    } else {
        seq![]
    }
}

/// Outcome of `add_milestone`.
pub open spec fn add_milestone_spec(
    s: EscrowContractView,
    now: u64,
    caller: AccountId,
    id: u64,
    title: Seq<u8>,
    description_hash: Hash32,
    amount: i128,
) -> Result<Step<u32>, EscrowError> {
    if s.paused {
        Err(EscrowError::ContractPaused)
    } else if amount <= 0 {
        Err(EscrowError::InvalidMilestoneAmount)
    } else if title.len() > MAX_STRING_LEN {
        Err(EscrowError::InvalidEscrowAmount)
    } else {
        match access_spec(s, id, now) {
            Err(e) => Err(e),
            Ok((p, rec)) => {
                let m = rec.meta;
                if caller != m.client {
                    Err(EscrowError::ClientOnly)
                } else if m.status != EscrowStatus::Active {
                    Err(EscrowError::EscrowNotActive)
                } else if m.allocated_amount + amount > m.total_amount {
                    Err(EscrowError::MilestoneAmountExceedsEscrow)
                } else if m.milestone_count >= s.milestone_cap() {
                    Err(EscrowError::TooManyMilestones)
                } else if m.rent_balance + reserve_spec(1) > i128::MAX {
                    Err(EscrowError::AmountMismatch)
                } else {
                    let meta = EscrowMetaView {
                        milestone_count: (m.milestone_count + 1) as u32,
                        allocated_amount: (m.allocated_amount + amount) as i128,
                        rent_balance: (m.rent_balance + reserve_spec(1)) as i128,
                        ..m
                    };
                    let new_rec = EscrowRecordView {
                        meta,
                        milestones: rec.milestones.push(
                            new_milestone(m.milestone_count, title, description_hash, amount),
                        ),
                        ..rec
                    };
                    Ok(Step {
                        value: m.milestone_count,
                        state: with_escrow(s, id, new_rec),
                        transfers: rent_transfers(s, s.escrows[id], p)
                            + entry_rent_transfer(s, m.token, caller, 1),
                    })
                }
            },
        }
    }
}

/// `rec` with milestone `mid` replaced by `m`.
pub open spec fn with_milestone(rec: EscrowRecordView, mid: u32, m: MilestoneView) -> EscrowRecordView {
    EscrowRecordView { milestones: rec.milestones.update(mid as int, m), ..rec }
}

/// Outcome of `update_milestone_title`.
pub open spec fn update_title_spec(
    s: EscrowContractView,
    now: u64,
    caller: AccountId,
    id: u64,
    mid: u32,
    new_title: Seq<u8>,
) -> Result<Step<()>, EscrowError> {
    if s.paused {
        Err(EscrowError::ContractPaused)
    } else if new_title.len() == 0 || new_title.len() > MAX_STRING_LEN {
        Err(EscrowError::StringTooLong)
    } else {
        match access_spec(s, id, now) {
            Err(e) => Err(e),
            Ok((p, rec)) => {
                if caller != rec.meta.client {
                    Err(EscrowError::ClientOnly)
                } else if !has_milestone(rec, mid) {
                    Err(EscrowError::MilestoneNotFound)
                } else if rec.milestones[mid as int].status != MS_PENDING {
                    Err(EscrowError::InvalidMilestoneState)
                } else {
                    let m = rec.milestones[mid as int];
                    Ok(Step {
                        value: (),
                        state: with_escrow(s, id, with_milestone(rec, mid, MilestoneView { title: new_title, ..m })),
                        transfers: rent_transfers(s, s.escrows[id], p),
                    })
                }
            },
        }
    }
}

/// Outcome of `submit_milestone`.
pub open spec fn submit_spec(
    s: EscrowContractView,
    now: u64,
    caller: AccountId,
    id: u64,
    mid: u32,
) -> Result<Step<()>, EscrowError> {
    if s.paused {
        Err(EscrowError::ContractPaused)
    } else {
        match access_spec(s, id, now) {
            Err(e) => Err(e),
            Ok((p, rec)) => {
                if caller != rec.meta.freelancer {
                    Err(EscrowError::FreelancerOnly)
                } else if !has_milestone(rec, mid) {
                    Err(EscrowError::MilestoneNotFound)
                } else if rec.milestones[mid as int].status != MS_PENDING
                    && rec.milestones[mid as int].status != MS_REJECTED {
                    Err(EscrowError::InvalidMilestoneState)
                } else if rec.meta.submitted_count == u32::MAX {
                    Err(EscrowError::AmountMismatch)
                } else {
                    let m = rec.milestones[mid as int];
                    let m2 = MilestoneView { status: MS_SUBMITTED, submitted_at: Some(now), ..m };
                    let r2 = with_milestone(rec, mid, m2);
                    let r3 = EscrowRecordView {
                        meta: EscrowMetaView { submitted_count: (rec.meta.submitted_count + 1) as u32, ..rec.meta },
                        ..r2
                    };
                    Ok(Step { value: (), state: with_escrow(s, id, r3), transfers: rent_transfers(s, s.escrows[id], p) })
                }
            },
        }
    }
}

/// Whether `caller` may approve milestones of `rec`: the client or a buyer signer.
pub open spec fn may_approve(rec: EscrowRecordView, caller: AccountId) -> bool {
    caller == rec.meta.client || rec.meta.buyer_signers.contains(caller)
}

/// Outcome of `approve_milestone`: the milestone is approved, and released
/// right away (its amount paid to the freelancer) unless a timelock is running.
pub open spec fn approve_spec(
    s: EscrowContractView,
    now: u64,
    caller: AccountId,
    id: u64,
    mid: u32,
) -> Result<Step<()>, EscrowError> {
    if s.paused {
        Err(EscrowError::ContractPaused)
    } else {
        match access_spec(s, id, now) {
            Err(e) => Err(e),
            Ok((p, rec)) => {
                let meta = rec.meta;
                if meta.status != EscrowStatus::Active {
                    Err(EscrowError::EscrowNotActive)
                } else if lock_check(meta.lock_time, now) is Err {
                    Err(EscrowError::LockTimeNotExpired)
                } else if !may_approve(rec, caller) {
                    Err(EscrowError::Unauthorized)
                } else if !has_milestone(rec, mid) {
                    Err(EscrowError::MilestoneNotFound)
                } else if rec.milestones[mid as int].status != MS_SUBMITTED {
                    Err(EscrowError::InvalidMilestoneState)
                } else if meta.approved_count == u32::MAX {
                    Err(EscrowError::AmountMismatch)
                } else {
                    let m = rec.milestones[mid as int];
                    let release = timelock_check(meta.timelock, now) is Ok;
                    if release && (meta.remaining_balance - m.amount < i128::MIN || meta.remaining_balance - m.amount > i128::MAX
                        || meta.released_count == u32::MAX) {
                        Err(EscrowError::AmountMismatch)
                    } else {
                        let approved = (meta.approved_count + 1) as u32;
                        let released = if release { (meta.released_count + 1) as u32 } else { meta.released_count };
                        let m2 = MilestoneView {
                            status: if release { MS_RELEASED } else { MS_APPROVED },
                            resolved_at: Some(now),
                            ..m
                        };
                        let complete = approved == meta.milestone_count && meta.milestone_count > 0
                            && released == meta.milestone_count;
                        let meta2 = EscrowMetaView {
                            approved_count: approved,
                            released_count: released,
                            submitted_count: if meta.submitted_count > 0 { (meta.submitted_count - 1) as u32 } else { 0u32 },
                            remaining_balance: if release { (meta.remaining_balance - m.amount) as i128 } else { meta.remaining_balance },
                            status: if complete { EscrowStatus::Completed } else { meta.status },
                            ..meta
                        };
                        let r2 = EscrowRecordView { meta: meta2, ..with_milestone(rec, mid, m2) };
                        Ok(Step {
                            value: (),
                            state: with_escrow(s, id, r2),
                            transfers: rent_transfers(s, s.escrows[id], p) + if release {
                                seq![Transfer { token: meta.token, from: s.contract_address, to: meta.freelancer, amount: m.amount }]
                            } else {
                                Seq::empty()
                            },
                        })
                    }
                }
            },
        }
    }
}


/// Outcome of rejecting a submitted milestone, optionally recording the hash of a reason.
pub open spec fn reject_spec(
    s: EscrowContractView,
    now: u64,
    caller: AccountId,
    id: u64,
    mid: u32,
    reason: Option<Hash32>,
) -> Result<Step<()>, EscrowError> {
    if s.paused {
        Err(EscrowError::ContractPaused)
    } else if reason is Some && reason->0 == [0u8; 32usize] {
        Err(EscrowError::InvalidEscrowAmount)
    } else {
        match access_spec(s, id, now) {
            Err(e) => Err(e),
            Ok((p, rec)) => {
                if caller != rec.meta.client {
                    Err(EscrowError::ClientOnly)
                } else if rec.meta.status != EscrowStatus::Active {
                    Err(EscrowError::EscrowNotActive)
                } else if !has_milestone(rec, mid) {
                    Err(EscrowError::MilestoneNotFound)
                } else if rec.milestones[mid as int].status != MS_SUBMITTED {
                    Err(EscrowError::InvalidMilestoneState)
                } else {
                    let m = rec.milestones[mid as int];
                    let m2 = MilestoneView {
                        status: MS_REJECTED,
                        resolved_at: Some(now),
                        rejection_reason: if reason is Some { reason } else { m.rejection_reason },
                        ..m
                    };
                    let sc = if rec.meta.submitted_count > 0 { (rec.meta.submitted_count - 1) as u32 } else { 0u32 };
                    let r2 = EscrowRecordView {
                        meta: EscrowMetaView { submitted_count: sc, ..rec.meta },
                        ..with_milestone(rec, mid, m2)
                    };
                    Ok(Step { value: (), state: with_escrow(s, id, r2), transfers: rent_transfers(s, s.escrows[id], p) })
                }
            },
        }
    }
}

/// Outcome of `release_funds`: the admin pays out an approved milestone
/// (whatever its timelock), once any lock time has passed.
pub open spec fn release_spec(
    s: EscrowContractView,
    now: u64,
    caller: AccountId,
    id: u64,
    mid: u32,
) -> Result<Step<()>, EscrowError> {
    if s.admin is None {
        Err(EscrowError::NotInitialized)
    } else if s.paused {
        Err(EscrowError::ContractPaused)
    } else if caller != s.admin->0 {
        Err(EscrowError::AdminOnly)
    } else if !s.escrows.contains_key(id) || !has_milestone(s.escrows[id], mid) {
        Err(EscrowError::MilestoneNotFound)
    } else if s.escrows[id].milestones[mid as int].status != MS_APPROVED {
        Err(EscrowError::InvalidMilestoneState)
    } else {
        match access_spec(s, id, now) {
            Err(e) => Err(e),
            Ok((p, rec)) => {
                let meta = rec.meta;
                let m = rec.milestones[mid as int];
                if lock_check(meta.lock_time, now) is Err {
                    Err(EscrowError::LockTimeNotExpired)
                } else if meta.remaining_balance - m.amount < i128::MIN || meta.remaining_balance - m.amount > i128::MAX
                    || meta.released_count == u32::MAX {
                    Err(EscrowError::AmountMismatch)
                } else {
                    let released = (meta.released_count + 1) as u32;
                    let complete = released == meta.milestone_count && meta.milestone_count > 0;
                    let meta2 = EscrowMetaView {
                        released_count: released,
                        remaining_balance: (meta.remaining_balance - m.amount) as i128,
                        status: if complete { EscrowStatus::Completed } else { meta.status },
                        ..meta
                    };
                    let r2 = EscrowRecordView {
                        meta: meta2,
                        ..with_milestone(rec, mid, MilestoneView { status: MS_RELEASED, ..m })
                    };
                    Ok(Step {
                        value: (),
                        state: with_escrow(s, id, r2),
                        transfers: rent_transfers(s, s.escrows[id], p)
                            + seq![Transfer { token: meta.token, from: s.contract_address, to: meta.freelancer, amount: m.amount }],
                    })
                }
            },
        }
    }
}

/// Whether every byte of `h` is zero.
pub fn is_zero_hash(h: &Hash32) -> (r: bool)
    ensures
        r == (*h == [0u8; 32usize]),
{
    let mut i: usize = 0;
    while i < 32
        invariant
            0 <= i <= 32,
            forall|j: int| 0 <= j < i ==> h[j] == 0u8,
        decreases 32 - i,
    {
        if h[i] != 0 {
            proof {
                let z: [u8; 32] = [0u8; 32usize];
                assert(h[i as int] != z[i as int]);
            }
            return false;
        }
        i = i + 1;
    }
    proof {
        let z: [u8; 32] = [0u8; 32usize];
        assert(forall|j: int| 0 <= j < 32 ==> z[j] == 0u8);
        assert(*h =~= z);
    }
    true
}

impl EscrowContract {
    /// Adds a milestone of `amount` to escrow `id`; the client pays one entry's rent reserve.
    pub fn add_milestone(
        &mut self,
        now: u64,
        caller: AccountId,
        id: u64,
        title: Vec<u8>,
        description_hash: Hash32,
        amount: i128,
        transfers: &mut Vec<Transfer>,
    ) -> (r: Result<u32, EscrowError>)
        requires
            old(self)@.wf(),
            settle_fits(old(self)@, id, now),
        ensures
            final(self)@.wf(),
            follows(
                r,
                add_milestone_spec(old(self)@, now, caller, id, title@, description_hash, amount),
                old(self)@, final(self)@, old(transfers)@, final(transfers)@,
            ),
    {
        if self.paused {
            return Err(EscrowError::ContractPaused);
        }
        if amount <= 0 {
            return Err(EscrowError::InvalidMilestoneAmount);
        }
        if title.len() > MAX_STRING_LEN as usize {
            return Err(EscrowError::InvalidEscrowAmount);
        }
        let p = match self.plan_rent(id, now) {
            Ok(p) => p,
            Err(e) => return Err(e),
        };
        let ghost s0 = self@;
        let rec = self.record_ref(id);
        if caller != rec.meta.client {
            return Err(EscrowError::ClientOnly);
        }
        if rec.meta.status != EscrowStatus::Active {
            return Err(EscrowError::EscrowNotActive);
        }
        let next_allocated = match rec.meta.allocated_amount.checked_add(amount) {
            Some(v) => v,
            None => return Err(EscrowError::MilestoneAmountExceedsEscrow),
        };
        if next_allocated > rec.meta.total_amount {
            return Err(EscrowError::MilestoneAmountExceedsEscrow);
        }
        let milestone_id = rec.meta.milestone_count;
        if milestone_id >= self.effective_max_milestones() {
            return Err(EscrowError::TooManyMilestones);
        }
        let reserve = ContractStorage::reserve_for_entries(1);
        let new_rent = match p.rent_balance.checked_add(reserve) {
            Some(v) => v,
            None => return Err(EscrowError::AmountMismatch),
        };
        let token = rec.meta.token;
        let mut rec = self.take_escrow(id);
        let ghost r0 = rec@;
        self.apply_rent(&mut rec, p, transfers);
        if reserve > 0 {
            transfers.push(Transfer { token, from: caller, to: self.contract_address, amount: reserve });
        }
        rec.meta.milestone_count = milestone_id + 1;
        rec.meta.allocated_amount = next_allocated;
        rec.meta.rent_balance = new_rent;
        let ghost ms0 = rec.milestones@;
        let m = Milestone {
            id: milestone_id,
            title,
            description_hash,
            amount,
            status: MS_PENDING,
            submitted_at: None,
            resolved_at: None,
            approvals: Vec::new(),
            rejection_reason: None,
        };
        rec.milestones.push(m);
        proof {
            lemma_milestones_push(ms0, m);
            assert(m@ =~= new_milestone(milestone_id, title@, description_hash, amount));
            let o = add_milestone_spec(s0, now, caller, id, title@, description_hash, amount);
            assert(o is Ok);
            assert(rec@.meta =~= o->Ok_0.state.escrows[id].meta);
            assert(rec@.milestones =~= o->Ok_0.state.escrows[id].milestones);
            assert(rec@ == o->Ok_0.state.escrows[id]);
            lemma_take_put(s0, id, rec@);
            lemma_settled_wf(s0.escrows[id], p);
            assert(record_wf(rec@));
            lemma_with_escrow_wf(s0, id, rec@);
        }
        self.put_escrow(id, rec);
        proof {
            let o = add_milestone_spec(s0, now, caller, id, title@, description_hash, amount);
            assert(final(transfers)@ =~= old(transfers)@ + o->Ok_0.transfers);
        }
        Ok(milestone_id)
    }

    /// Replaces the title of a pending milestone; only the client may.
    pub fn update_milestone_title(
        &mut self,
        now: u64,
        caller: AccountId,
        id: u64,
        mid: u32,
        new_title: Vec<u8>,
        transfers: &mut Vec<Transfer>,
    ) -> (r: Result<(), EscrowError>)
        requires
            old(self)@.wf(),
            settle_fits(old(self)@, id, now),
        ensures
            final(self)@.wf(),
            follows(
                r,
                update_title_spec(old(self)@, now, caller, id, mid, new_title@),
                old(self)@, final(self)@, old(transfers)@, final(transfers)@,
            ),
    {
        if self.paused {
            return Err(EscrowError::ContractPaused);
        }
        if new_title.len() == 0 || new_title.len() > MAX_STRING_LEN as usize {
            return Err(EscrowError::StringTooLong);
        }
        let p = match self.plan_rent(id, now) {
            Ok(p) => p,
            Err(e) => return Err(e),
        };
        let ghost s0 = self@;
        let rec = self.record_ref(id);
        if caller != rec.meta.client {
            return Err(EscrowError::ClientOnly);
        }
        if mid as usize >= rec.milestones.len() {
            return Err(EscrowError::MilestoneNotFound);
        }
        if rec.milestones[mid as usize].status != MS_PENDING {
            return Err(EscrowError::InvalidMilestoneState);
        }
        let mut rec = self.take_escrow(id);
        self.apply_rent(&mut rec, p, transfers);
        let ghost ms0 = rec.milestones@;
        rec.milestones[mid as usize].title = new_title;
        proof {
            let o = update_title_spec(s0, now, caller, id, mid, new_title@);
            assert(o is Ok);
            lemma_milestones_update(ms0, mid as int, rec.milestones@[mid as int]);
            assert(rec.milestones@ =~= ms0.update(mid as int, rec.milestones@[mid as int]));
            assert(rec@.milestones =~= o->Ok_0.state.escrows[id].milestones);
            assert(rec@ == o->Ok_0.state.escrows[id]);
            lemma_take_put(s0, id, rec@);
            lemma_settled_wf(s0.escrows[id], p);
            assert(record_wf(rec@));
            lemma_with_escrow_wf(s0, id, rec@);
        }
        self.put_escrow(id, rec);
        Ok(())
    }

    /// The freelancer submits a pending or rejected milestone for approval.
    pub fn submit_milestone(
        &mut self,
        now: u64,
        caller: AccountId,
        id: u64,
        mid: u32,
        transfers: &mut Vec<Transfer>,
    ) -> (r: Result<(), EscrowError>)
        requires
            old(self)@.wf(),
            settle_fits(old(self)@, id, now),
        ensures
            final(self)@.wf(),
            follows(r, submit_spec(old(self)@, now, caller, id, mid), old(self)@, final(self)@, old(transfers)@, final(transfers)@),
    {
        if self.paused {
            return Err(EscrowError::ContractPaused);
        }
        let p = match self.plan_rent(id, now) {
            Ok(p) => p,
            Err(e) => return Err(e),
        };
        let ghost s0 = self@;
        let rec = self.record_ref(id);
        if caller != rec.meta.freelancer {
            return Err(EscrowError::FreelancerOnly);
        }
        if mid as usize >= rec.milestones.len() {
            return Err(EscrowError::MilestoneNotFound);
        }
        let status = rec.milestones[mid as usize].status;
        if status != MS_PENDING && status != MS_REJECTED {
            return Err(EscrowError::InvalidMilestoneState);
        }
        let submitted = match rec.meta.submitted_count.checked_add(1) {
            Some(v) => v,
            None => return Err(EscrowError::AmountMismatch),
        };
        let mut rec = self.take_escrow(id);
        self.apply_rent(&mut rec, p, transfers);
        let ghost ms0 = rec.milestones@;
        rec.milestones[mid as usize].status = MS_SUBMITTED;
        rec.milestones[mid as usize].submitted_at = Some(now);
        rec.meta.submitted_count = submitted;
        proof {
            let o = submit_spec(s0, now, caller, id, mid);
            assert(o is Ok);
            lemma_milestones_update(ms0, mid as int, rec.milestones@[mid as int]);
            assert(rec.milestones@ =~= ms0.update(mid as int, rec.milestones@[mid as int]));
            assert(rec@.milestones =~= o->Ok_0.state.escrows[id].milestones);
            assert(rec@.meta =~= o->Ok_0.state.escrows[id].meta);
            assert(rec@ == o->Ok_0.state.escrows[id]);
            lemma_take_put(s0, id, rec@);
            lemma_settled_wf(s0.escrows[id], p);
            assert(record_wf(rec@));
            lemma_with_escrow_wf(s0, id, rec@);
        }
        self.put_escrow(id, rec);
        Ok(())
    }

    /// The client or a buyer signer approves a submitted milestone; its amount
    /// is paid to the freelancer unless a timelock is still running.
    pub fn approve_milestone(
        &mut self,
        now: u64,
        caller: AccountId,
        id: u64,
        mid: u32,
        transfers: &mut Vec<Transfer>,
    ) -> (r: Result<(), EscrowError>)
        requires
            old(self)@.wf(),
            settle_fits(old(self)@, id, now),
        ensures
            final(self)@.wf(),
            follows(r, approve_spec(old(self)@, now, caller, id, mid), old(self)@, final(self)@, old(transfers)@, final(transfers)@),
    {
        if self.paused {
            return Err(EscrowError::ContractPaused);
        }
        let p = match self.plan_rent(id, now) {
            Ok(p) => p,
            Err(e) => return Err(e),
        };
        let ghost s0 = self@;
        let rec = self.record_ref(id);
        if rec.meta.status != EscrowStatus::Active {
            return Err(EscrowError::EscrowNotActive);
        }
        if let Err(e) = Self::check_lock_time_expired(rec.meta.lock_time, now) {
            return Err(e);
        }
        if caller != rec.meta.client && !contains_account(&rec.meta.buyer_signers, caller) {
            return Err(EscrowError::Unauthorized);
        }
        if mid as usize >= rec.milestones.len() {
            return Err(EscrowError::MilestoneNotFound);
        }
        if rec.milestones[mid as usize].status != MS_SUBMITTED {
            return Err(EscrowError::InvalidMilestoneState);
        }
        let amount = rec.milestones[mid as usize].amount;
        let approved = match rec.meta.approved_count.checked_add(1) {
            Some(v) => v,
            None => return Err(EscrowError::AmountMismatch),
        };
        let release = Self::check_timelock_expired(rec.meta.timelock, now).is_ok();
        let mut remaining = rec.meta.remaining_balance;
        let mut released = rec.meta.released_count;
        if release {
            remaining = match remaining.checked_sub(amount) {
                Some(v) => v,
                None => return Err(EscrowError::AmountMismatch),
            };
            released = match released.checked_add(1) {
                Some(v) => v,
                None => return Err(EscrowError::AmountMismatch),
            };
        }
        let count = rec.meta.milestone_count;
        let token = rec.meta.token;
        let freelancer = rec.meta.freelancer;
        let mut rec = self.take_escrow(id);
        self.apply_rent(&mut rec, p, transfers);
        if release {
            transfers.push(Transfer { token, from: self.contract_address, to: freelancer, amount });
        }
        let ghost ms0 = rec.milestones@;
        rec.milestones[mid as usize].status = if release { MS_RELEASED } else { MS_APPROVED };
        rec.milestones[mid as usize].resolved_at = Some(now);
        rec.meta.approved_count = approved;
        rec.meta.released_count = released;
        rec.meta.submitted_count = rec.meta.submitted_count.saturating_sub(1);
        rec.meta.remaining_balance = remaining;
        if approved == count && count > 0 && released == count {
            rec.meta.status = EscrowStatus::Completed;
        }
        proof {
            let o = approve_spec(s0, now, caller, id, mid);
            assert(o is Ok);
            lemma_milestones_update(ms0, mid as int, rec.milestones@[mid as int]);
            assert(rec.milestones@ =~= ms0.update(mid as int, rec.milestones@[mid as int]));
            assert(rec@.milestones =~= o->Ok_0.state.escrows[id].milestones);
            assert(rec@.meta =~= o->Ok_0.state.escrows[id].meta);
            assert(rec@ == o->Ok_0.state.escrows[id]);
            lemma_take_put(s0, id, rec@);
            lemma_settled_wf(s0.escrows[id], p);
            assert(record_wf(rec@));
            lemma_with_escrow_wf(s0, id, rec@);
        }
        self.put_escrow(id, rec);
        proof {
            let o = approve_spec(s0, now, caller, id, mid);
            assert(final(transfers)@ =~= old(transfers)@ + o->Ok_0.transfers);
        }
        Ok(())
    }

    /// The client rejects a submitted milestone.
    pub fn reject_milestone(
        &mut self,
        now: u64,
        caller: AccountId,
        id: u64,
        mid: u32,
        transfers: &mut Vec<Transfer>,
    ) -> (r: Result<(), EscrowError>)
        requires
            old(self)@.wf(),
            settle_fits(old(self)@, id, now),
        ensures
            final(self)@.wf(),
            follows(r, reject_spec(old(self)@, now, caller, id, mid, None), old(self)@, final(self)@, old(transfers)@, final(transfers)@),
    {
        self.reject_internal(now, caller, id, mid, None, transfers)
    }

    /// The client rejects a submitted milestone and records the (non-zero) hash of the reason.
    pub fn reject_milestone_with_reason(
        &mut self,
        now: u64,
        caller: AccountId,
        id: u64,
        mid: u32,
        reason_hash: Hash32,
        transfers: &mut Vec<Transfer>,
    ) -> (r: Result<(), EscrowError>)
        requires
            old(self)@.wf(),
            settle_fits(old(self)@, id, now),
        ensures
            final(self)@.wf(),
            follows(r, reject_spec(old(self)@, now, caller, id, mid, Some(reason_hash)), old(self)@, final(self)@, old(transfers)@, final(transfers)@),
    {
        self.reject_internal(now, caller, id, mid, Some(reason_hash), transfers)
    }

    fn reject_internal(
        &mut self,
        now: u64,
        caller: AccountId,
        id: u64,
        mid: u32,
        reason: Option<Hash32>,
        transfers: &mut Vec<Transfer>,
    ) -> (r: Result<(), EscrowError>)
        requires
            old(self)@.wf(),
            settle_fits(old(self)@, id, now),
        ensures
            final(self)@.wf(),
            follows(r, reject_spec(old(self)@, now, caller, id, mid, reason), old(self)@, final(self)@, old(transfers)@, final(transfers)@),
    {
        if self.paused {
            return Err(EscrowError::ContractPaused);
        }
        if let Some(h) = reason {
            if is_zero_hash(&h) {
                return Err(EscrowError::InvalidEscrowAmount);
            }
        }
        let p = match self.plan_rent(id, now) {
            Ok(p) => p,
            Err(e) => return Err(e),
        };
        let ghost s0 = self@;
        let rec = self.record_ref(id);
        if caller != rec.meta.client {
            return Err(EscrowError::ClientOnly);
        }
        if rec.meta.status != EscrowStatus::Active {
            return Err(EscrowError::EscrowNotActive);
        }
        if mid as usize >= rec.milestones.len() {
            return Err(EscrowError::MilestoneNotFound);
        }
        if rec.milestones[mid as usize].status != MS_SUBMITTED {
            return Err(EscrowError::InvalidMilestoneState);
        }
        let mut rec = self.take_escrow(id);
        self.apply_rent(&mut rec, p, transfers);
        let ghost ms0 = rec.milestones@;
        rec.milestones[mid as usize].status = MS_REJECTED;
        rec.milestones[mid as usize].resolved_at = Some(now);
        if reason.is_some() {
            rec.milestones[mid as usize].rejection_reason = reason;
        }
        rec.meta.submitted_count = rec.meta.submitted_count.saturating_sub(1);
        proof {
            let o = reject_spec(s0, now, caller, id, mid, reason);
            assert(o is Ok);
            lemma_milestones_update(ms0, mid as int, rec.milestones@[mid as int]);
            assert(rec.milestones@ =~= ms0.update(mid as int, rec.milestones@[mid as int]));
            assert(rec@.milestones =~= o->Ok_0.state.escrows[id].milestones);
            assert(rec@.meta =~= o->Ok_0.state.escrows[id].meta);
            assert(rec@ == o->Ok_0.state.escrows[id]);
            lemma_take_put(s0, id, rec@);
            lemma_settled_wf(s0.escrows[id], p);
            assert(record_wf(rec@));
            lemma_with_escrow_wf(s0, id, rec@);
        }
        self.put_escrow(id, rec);
        Ok(())
    }

    /// The admin pays out an approved milestone, whatever its timelock, once
    /// any lock time has passed.
    pub fn release_funds(
        &mut self,
        now: u64,
        caller: AccountId,
        id: u64,
        mid: u32,
        transfers: &mut Vec<Transfer>,
    ) -> (r: Result<(), EscrowError>)
        requires
            old(self)@.wf(),
            settle_fits(old(self)@, id, now),
        ensures
            final(self)@.wf(),
            follows(r, release_spec(old(self)@, now, caller, id, mid), old(self)@, final(self)@, old(transfers)@, final(transfers)@),
    {
        let admin = match self.admin {
            Some(a) => a,
            None => return Err(EscrowError::NotInitialized),
        };
        if self.paused {
            return Err(EscrowError::ContractPaused);
        }
        if caller != admin {
            return Err(EscrowError::AdminOnly);
        }
        match self.escrows.get(&id) {
            None => return Err(EscrowError::MilestoneNotFound),
            Some(rec) => {
                if mid as usize >= rec.milestones.len() {
                    return Err(EscrowError::MilestoneNotFound);
                }
                if rec.milestones[mid as usize].status != MS_APPROVED {
                    return Err(EscrowError::InvalidMilestoneState);
                }
            },
        }
        let p = match self.plan_rent(id, now) {
            Ok(p) => p,
            Err(e) => return Err(e),
        };
        let ghost s0 = self@;
        let rec = self.record_ref(id);
        if let Err(e) = Self::check_lock_time_expired(rec.meta.lock_time, now) {
            return Err(e);
        }
        let amount = rec.milestones[mid as usize].amount;
        let remaining = match rec.meta.remaining_balance.checked_sub(amount) {
            Some(v) => v,
            None => return Err(EscrowError::AmountMismatch),
        };
        let released = match rec.meta.released_count.checked_add(1) {
            Some(v) => v,
            None => return Err(EscrowError::AmountMismatch),
        };
        let count = rec.meta.milestone_count;
        let token = rec.meta.token;
        let freelancer = rec.meta.freelancer;
        let mut rec = self.take_escrow(id);
        self.apply_rent(&mut rec, p, transfers);
        transfers.push(Transfer { token, from: self.contract_address, to: freelancer, amount });
        let ghost ms0 = rec.milestones@;
        rec.milestones[mid as usize].status = MS_RELEASED;
        rec.meta.remaining_balance = remaining;
        rec.meta.released_count = released;
        if released == count && count > 0 {
            rec.meta.status = EscrowStatus::Completed;
        }
        proof {
            let o = release_spec(s0, now, caller, id, mid);
            assert(o is Ok);
            lemma_milestones_update(ms0, mid as int, rec.milestones@[mid as int]);
            assert(rec.milestones@ =~= ms0.update(mid as int, rec.milestones@[mid as int]));
            assert(rec@.milestones =~= o->Ok_0.state.escrows[id].milestones);
            assert(rec@.meta =~= o->Ok_0.state.escrows[id].meta);
            assert(rec@ == o->Ok_0.state.escrows[id]);
            lemma_take_put(s0, id, rec@);
            lemma_settled_wf(s0.escrows[id], p);
            assert(record_wf(rec@));
            lemma_with_escrow_wf(s0, id, rec@);
        }
        self.put_escrow(id, rec);
        proof {
            let o = release_spec(s0, now, caller, id, mid);
            assert(final(transfers)@ =~= old(transfers)@ + o->Ok_0.transfers);
        }
        Ok(())
    }
}

} // verus!
