//! Cancelling, timelocks, lock times, arbiters and disputes.

use vstd::prelude::*;
use crate::constants::MAX_TIMELOCK_DURATION;
use crate::errors::EscrowError;
use crate::escrow::{
    EscrowContract, EscrowContractView, EscrowMetaView, EscrowRecordView, MilestoneView, Step,
    access_spec, follows, has_milestone, lemma_milestones_update, lemma_settled_wf, lemma_take_put,
    lemma_with_escrow_wf, record_wf, rent_transfers, settle_fits, with_escrow,
};
use crate::escrow_milestones::with_milestone;
use crate::types::{AccountId, EscrowStatus, Timelock, Transfer, MS_DISPUTED, MS_PENDING, MS_SUBMITTED};

verus! {

/// `rec` with header `meta`.
pub open spec fn with_meta(rec: EscrowRecordView, meta: EscrowMetaView) -> EscrowRecordView {
    EscrowRecordView { meta, ..rec }
}

/// Outcome of `cancel_escrow`: the client takes back the whole remaining
/// balance, provided no milestone is submitted or approved and unreleased.
pub open spec fn cancel_escrow_spec(s: EscrowContractView, now: u64, caller: AccountId, id: u64) -> Result<Step<()>, EscrowError> {
    if s.paused {
        Err(EscrowError::ContractPaused)
    } else {
        match access_spec(s, id, now) {
            Err(e) => Err(e),
            Ok((p, rec)) => {
                let m = rec.meta;
                if caller != m.client {
                    Err(EscrowError::ClientOnly)
                } else if m.status != EscrowStatus::Active {
                    Err(EscrowError::EscrowNotActive)
                } else if m.submitted_count > 0 || m.approved_count > m.released_count {
                    Err(EscrowError::CannotCancelWithPendingFunds)
                } else {
                    let meta = EscrowMetaView { remaining_balance: 0, status: EscrowStatus::Cancelled, ..m };
                    Ok(Step {
                        value: (),
                        state: with_escrow(s, id, with_meta(rec, meta)),
                        transfers: rent_transfers(s, s.escrows[id], p)
                            + seq![Transfer { token: m.token, from: s.contract_address, to: m.client, amount: m.remaining_balance }],
                    })
                }
            },
        }
    }
}

/// Outcome of `transfer_client_role`.
pub open spec fn transfer_client_spec(s: EscrowContractView, now: u64, id: u64, new_client: AccountId) -> Result<Step<()>, EscrowError> {
    if s.paused {
        Err(EscrowError::ContractPaused)
    } else {
        match access_spec(s, id, now) {
            Err(e) => Err(e),
            Ok((p, rec)) => {
                let m = rec.meta;
                if m.status != EscrowStatus::Active {
                    Err(EscrowError::EscrowNotActive)
                } else if new_client == m.freelancer || m.arbiter == Some(new_client) {
                    Err(EscrowError::Unauthorized)
                } else {
                    Ok(Step {
                        value: (),
                        state: with_escrow(s, id, with_meta(rec, EscrowMetaView { client: new_client, ..m })),
                        transfers: rent_transfers(s, s.escrows[id], p),
                    })
                }
            },
        }
    }
}

/// Outcome of `start_timelock`: a release window of `duration` seconds
/// (1 second to 30 days) starts at `now`.
pub open spec fn start_timelock_spec(s: EscrowContractView, now: u64, caller: AccountId, id: u64, duration: u64) -> Result<Step<()>, EscrowError> {
    if s.admin is None {
        Err(EscrowError::NotInitialized)
    } else if s.paused {
        Err(EscrowError::ContractPaused)
    } else if duration == 0 || duration > MAX_TIMELOCK_DURATION {
        Err(EscrowError::InvalidTimelockDuration)
    } else {
        match access_spec(s, id, now) {
            Err(e) => Err(e),
            Ok((p, rec)) => {
                let m = rec.meta;
                if caller != m.client && caller != m.freelancer {
                    Err(EscrowError::Unauthorized)
                } else if m.status != EscrowStatus::Active {
                    Err(EscrowError::EscrowNotActive)
                } else if m.timelock is Some {
                    Err(EscrowError::TimelockAlreadyActive)
                } else {
                    let tl = Timelock { duration_ledger: duration, start_ledger: now };
                    Ok(Step {
                        value: (),
                        state: with_escrow(s, id, with_meta(rec, EscrowMetaView { timelock: Some(tl), ..m })),
                        transfers: rent_transfers(s, s.escrows[id], p),
                    })
                }
            },
        }
    }
}

/// Outcome of `extend_lock_time`: the lock moves to a future time, not past
/// the extension bound when one is set.
pub open spec fn extend_lock_spec(s: EscrowContractView, now: u64, caller: AccountId, id: u64, new_lock_time: u64) -> Result<Step<()>, EscrowError> {
    if s.paused {
        Err(EscrowError::ContractPaused)
    } else {
        match access_spec(s, id, now) {
            Err(e) => Err(e),
            Ok((p, rec)) => {
                let m = rec.meta;
                if caller != m.client {
                    Err(EscrowError::ClientOnly)
                } else if m.status != EscrowStatus::Active {
                    Err(EscrowError::EscrowNotActive)
                } else if new_lock_time <= now {
                    Err(EscrowError::InvalidLockTimeExtension)
                } else if m.lock_time_extension is Some && new_lock_time > m.lock_time_extension->0 {
                    Err(EscrowError::InvalidLockTimeExtension)
                } else {
                    Ok(Step {
                        value: (),
                        state: with_escrow(s, id, with_meta(rec, EscrowMetaView { lock_time: Some(new_lock_time), ..m })),
                        transfers: rent_transfers(s, s.escrows[id], p),
                    })
                }
            },
        }
    }
}

/// Outcome of `update_arbiter`.
pub open spec fn update_arbiter_spec(s: EscrowContractView, now: u64, id: u64, new_arbiter: Option<AccountId>) -> Result<Step<()>, EscrowError> {
    if s.paused {
        Err(EscrowError::ContractPaused)
    } else {
        match access_spec(s, id, now) {
            Err(e) => Err(e),
            Ok((p, rec)) => {
                let m = rec.meta;
                if m.status != EscrowStatus::Active {
                    Err(EscrowError::EscrowNotActive)
                } else if new_arbiter is Some && (new_arbiter->0 == m.client || new_arbiter->0 == m.freelancer) {
                    Err(EscrowError::Unauthorized)
                } else {
                    Ok(Step {
                        value: (),
                        state: with_escrow(s, id, with_meta(rec, EscrowMetaView { arbiter: new_arbiter, ..m })),
                        transfers: rent_transfers(s, s.escrows[id], p),
                    })
                }
            },
        }
    }
}

/// Outcome of `raise_dispute`: the escrow is frozen as disputed; a named
/// pending or submitted milestone is marked disputed as well.
pub open spec fn raise_dispute_spec(s: EscrowContractView, now: u64, caller: AccountId, id: u64, milestone: Option<u32>) -> Result<Step<()>, EscrowError> {
    if s.paused {
        Err(EscrowError::ContractPaused)
    } else {
        match access_spec(s, id, now) {
            Err(e) => Err(e),
            Ok((p, rec)) => {
                let m = rec.meta;
                if caller != m.client && caller != m.freelancer {
                    Err(EscrowError::Unauthorized)
                } else if m.status == EscrowStatus::Disputed {
                    Err(EscrowError::DisputeAlreadyExists)
                } else if m.status != EscrowStatus::Active {
                    Err(EscrowError::EscrowNotActive)
                } else if milestone is Some && !has_milestone(rec, milestone->0) {
                    Err(EscrowError::MilestoneNotFound)
                } else {
                    let rec2 = with_meta(rec, EscrowMetaView { status: EscrowStatus::Disputed, ..m });
                    let rec3 = match milestone {
                        None => rec2,
                        Some(mid) => {
                            let ms = rec.milestones[mid as int];
                            if ms.status == MS_SUBMITTED || ms.status == MS_PENDING {
                                let r = with_milestone(rec2, mid, MilestoneView { status: MS_DISPUTED, resolved_at: Some(now), ..ms });
                                if ms.status == MS_SUBMITTED {
                                    let sc = if m.submitted_count > 0 { (m.submitted_count - 1) as u32 } else { 0u32 };
                                    with_meta(r, EscrowMetaView { submitted_count: sc, ..r.meta })
                                } else {
                                    r
                                }
                            } else {
                                rec2
                            }
                        },
                    };
                    Ok(Step { value: (), state: with_escrow(s, id, rec3), transfers: rent_transfers(s, s.escrows[id], p) })
                }
            },
        }
    }
}

impl EscrowContract {
    /// The client cancels an escrow and takes back the remaining balance.
    pub fn cancel_escrow(&mut self, now: u64, caller: AccountId, id: u64, transfers: &mut Vec<Transfer>) -> (r: Result<(), EscrowError>)
        requires
            old(self)@.wf(),
            settle_fits(old(self)@, id, now),
        ensures
            final(self)@.wf(),
            follows(r, cancel_escrow_spec(old(self)@, now, caller, id), old(self)@, final(self)@, old(transfers)@, final(transfers)@),
    {
        if self.paused {
            return Err(EscrowError::ContractPaused);
        }
        let p = match self.plan_rent(id, now) {
            Ok(p) => p,
            Err(e) => return Err(e),
        };
        let ghost s0 = self@;
        let rec = self.record_ref(id);
        if caller != rec.meta.client {
            return Err(EscrowError::ClientOnly);
        }
        if rec.meta.status != EscrowStatus::Active {
            return Err(EscrowError::EscrowNotActive);
        }
        if rec.meta.submitted_count > 0 || rec.meta.approved_count > rec.meta.released_count {
            return Err(EscrowError::CannotCancelWithPendingFunds);
        }
        let returned = rec.meta.remaining_balance;
        let token = rec.meta.token;
        let client = rec.meta.client;
        let mut rec = self.take_escrow(id);
        self.apply_rent(&mut rec, p, transfers);
        transfers.push(Transfer { token, from: self.contract_address, to: client, amount: returned });
        rec.meta.remaining_balance = 0;
        rec.meta.status = EscrowStatus::Cancelled;
        proof {
            let o = cancel_escrow_spec(s0, now, caller, id);
            assert(o is Ok);
            assert(rec@.meta =~= o->Ok_0.state.escrows[id].meta);
            assert(rec@ == o->Ok_0.state.escrows[id]);
            lemma_take_put(s0, id, rec@);
            lemma_settled_wf(s0.escrows[id], p);
            lemma_with_escrow_wf(s0, id, rec@);
        }
        self.put_escrow(id, rec);
        proof {
            let o = cancel_escrow_spec(s0, now, caller, id);
            assert(final(transfers)@ =~= old(transfers)@ + o->Ok_0.transfers);
        }
        Ok(())
    }

    /// Hands the client role to `new_client`, who must not be the freelancer or the arbiter.
    pub fn transfer_client_role(&mut self, now: u64, id: u64, new_client: AccountId, transfers: &mut Vec<Transfer>) -> (r: Result<(), EscrowError>)
        requires
            old(self)@.wf(),
            settle_fits(old(self)@, id, now),
        ensures
            final(self)@.wf(),
            follows(r, transfer_client_spec(old(self)@, now, id, new_client), old(self)@, final(self)@, old(transfers)@, final(transfers)@),
    {
        if self.paused {
            return Err(EscrowError::ContractPaused);
        }
        let p = match self.plan_rent(id, now) {
            Ok(p) => p,
            Err(e) => return Err(e),
        };
        let ghost s0 = self@;
        let rec = self.record_ref(id);
        if rec.meta.status != EscrowStatus::Active {
            return Err(EscrowError::EscrowNotActive);
        }
        if new_client == rec.meta.freelancer {
            return Err(EscrowError::Unauthorized);
        }
        if let Some(a) = rec.meta.arbiter {
            if new_client == a {
                return Err(EscrowError::Unauthorized);
            }
        }
        let mut rec = self.take_escrow(id);
        self.apply_rent(&mut rec, p, transfers);
        rec.meta.client = new_client;
        proof {
            let o = transfer_client_spec(s0, now, id, new_client);
            assert(o is Ok);
            assert(rec@.meta =~= o->Ok_0.state.escrows[id].meta);
            assert(rec@ == o->Ok_0.state.escrows[id]);
            lemma_take_put(s0, id, rec@);
            lemma_settled_wf(s0.escrows[id], p);
            lemma_with_escrow_wf(s0, id, rec@);
        }
        self.put_escrow(id, rec);
        Ok(())
    }

    /// Client or freelancer starts a release window of `duration_ledger` seconds.
    pub fn start_timelock(&mut self, now: u64, caller: AccountId, id: u64, duration_ledger: u64, transfers: &mut Vec<Transfer>) -> (r: Result<(), EscrowError>)
        requires
            old(self)@.wf(),
            settle_fits(old(self)@, id, now),
        ensures
            final(self)@.wf(),
            follows(r, start_timelock_spec(old(self)@, now, caller, id, duration_ledger), old(self)@, final(self)@, old(transfers)@, final(transfers)@),
    {
        if self.admin.is_none() {
            return Err(EscrowError::NotInitialized);
        }
        if self.paused {
            return Err(EscrowError::ContractPaused);
        }
        if duration_ledger == 0 || duration_ledger > MAX_TIMELOCK_DURATION {
            return Err(EscrowError::InvalidTimelockDuration);
        }
        let p = match self.plan_rent(id, now) {
            Ok(p) => p,
            Err(e) => return Err(e),
        };
        let ghost s0 = self@;
        let rec = self.record_ref(id);
        if caller != rec.meta.client && caller != rec.meta.freelancer {
            return Err(EscrowError::Unauthorized);
        }
        if rec.meta.status != EscrowStatus::Active {
            return Err(EscrowError::EscrowNotActive);
        }
        if rec.meta.timelock.is_some() {
            return Err(EscrowError::TimelockAlreadyActive);
        }
        let mut rec = self.take_escrow(id);
        self.apply_rent(&mut rec, p, transfers);
        rec.meta.timelock = Some(Timelock { duration_ledger, start_ledger: now });
        proof {
            let o = start_timelock_spec(s0, now, caller, id, duration_ledger);
            assert(o is Ok);
            assert(rec@.meta =~= o->Ok_0.state.escrows[id].meta);
            assert(rec@ == o->Ok_0.state.escrows[id]);
            lemma_take_put(s0, id, rec@);
            lemma_settled_wf(s0.escrows[id], p);
            lemma_with_escrow_wf(s0, id, rec@);
        }
        self.put_escrow(id, rec);
        Ok(())
    }

    /// The client moves the lock time to `new_lock_time`.
    pub fn extend_lock_time(&mut self, now: u64, caller: AccountId, id: u64, new_lock_time: u64, transfers: &mut Vec<Transfer>) -> (r: Result<(), EscrowError>)
        requires
            old(self)@.wf(),
            settle_fits(old(self)@, id, now),
        ensures
            final(self)@.wf(),
            follows(r, extend_lock_spec(old(self)@, now, caller, id, new_lock_time), old(self)@, final(self)@, old(transfers)@, final(transfers)@),
    {
        if self.paused {
            return Err(EscrowError::ContractPaused);
        }
        let p = match self.plan_rent(id, now) {
            Ok(p) => p,
            Err(e) => return Err(e),
        };
        let ghost s0 = self@;
        let rec = self.record_ref(id);
        if caller != rec.meta.client {
            return Err(EscrowError::ClientOnly);
        }
        if rec.meta.status != EscrowStatus::Active {
            return Err(EscrowError::EscrowNotActive);
        }
        if new_lock_time <= now {
            return Err(EscrowError::InvalidLockTimeExtension);
        }
        if let Some(ext) = rec.meta.lock_time_extension {
            if new_lock_time > ext {
                return Err(EscrowError::InvalidLockTimeExtension);
            }
        }
        let mut rec = self.take_escrow(id);
        self.apply_rent(&mut rec, p, transfers);
        rec.meta.lock_time = Some(new_lock_time);
        proof {
            let o = extend_lock_spec(s0, now, caller, id, new_lock_time);
            assert(o is Ok);
            assert(rec@.meta =~= o->Ok_0.state.escrows[id].meta);
            assert(rec@ == o->Ok_0.state.escrows[id]);
            lemma_take_put(s0, id, rec@);
            lemma_settled_wf(s0.escrows[id], p);
            lemma_with_escrow_wf(s0, id, rec@);
        }
        self.put_escrow(id, rec);
        Ok(())
    }

    /// Replaces the arbiter of an active escrow; it must be neither party.
    pub fn update_arbiter(&mut self, now: u64, id: u64, new_arbiter: Option<AccountId>, transfers: &mut Vec<Transfer>) -> (r: Result<(), EscrowError>)
        requires
            old(self)@.wf(),
            settle_fits(old(self)@, id, now),
        ensures
            final(self)@.wf(),
            follows(r, update_arbiter_spec(old(self)@, now, id, new_arbiter), old(self)@, final(self)@, old(transfers)@, final(transfers)@),
    {
        if self.paused {
            return Err(EscrowError::ContractPaused);
        }
        let p = match self.plan_rent(id, now) {
            Ok(p) => p,
            Err(e) => return Err(e),
        };
        let ghost s0 = self@;
        let rec = self.record_ref(id);
        if rec.meta.status != EscrowStatus::Active {
            return Err(EscrowError::EscrowNotActive);
        }
        if let Some(a) = new_arbiter {
            if a == rec.meta.client || a == rec.meta.freelancer {
                return Err(EscrowError::Unauthorized);
            }
        }
        let mut rec = self.take_escrow(id);
        self.apply_rent(&mut rec, p, transfers);
        rec.meta.arbiter = new_arbiter;
        proof {
            let o = update_arbiter_spec(s0, now, id, new_arbiter);
            assert(o is Ok);
            assert(rec@.meta =~= o->Ok_0.state.escrows[id].meta);
            assert(rec@ == o->Ok_0.state.escrows[id]);
            lemma_take_put(s0, id, rec@);
            lemma_settled_wf(s0.escrows[id], p);
            lemma_with_escrow_wf(s0, id, rec@);
        }
        self.put_escrow(id, rec);
        Ok(())
    }

    /// Client or freelancer freezes an active escrow as disputed.
    pub fn raise_dispute(&mut self, now: u64, caller: AccountId, id: u64, milestone_id: Option<u32>, transfers: &mut Vec<Transfer>) -> (r: Result<(), EscrowError>)
        requires
            old(self)@.wf(),
            settle_fits(old(self)@, id, now),
        ensures
            final(self)@.wf(),
            follows(r, raise_dispute_spec(old(self)@, now, caller, id, milestone_id), old(self)@, final(self)@, old(transfers)@, final(transfers)@),
    {
        if self.paused {
            return Err(EscrowError::ContractPaused);
        }
        let p = match self.plan_rent(id, now) {
            Ok(p) => p,
            Err(e) => return Err(e),
        };
        let ghost s0 = self@;
        let rec = self.record_ref(id);
        if caller != rec.meta.client && caller != rec.meta.freelancer {
            return Err(EscrowError::Unauthorized);
        }
        if rec.meta.status == EscrowStatus::Disputed {
            return Err(EscrowError::DisputeAlreadyExists);
        }
        if rec.meta.status != EscrowStatus::Active {
            return Err(EscrowError::EscrowNotActive);
        }
        if let Some(mid) = milestone_id {
            if mid as usize >= rec.milestones.len() {
                return Err(EscrowError::MilestoneNotFound);
            }
        }
        let mut rec = self.take_escrow(id);
        self.apply_rent(&mut rec, p, transfers);
        rec.meta.status = EscrowStatus::Disputed;
        let ghost ms0 = rec.milestones@;
        if let Some(mid) = milestone_id {
            let status = rec.milestones[mid as usize].status;
            if status == MS_SUBMITTED || status == MS_PENDING {
                rec.milestones[mid as usize].status = MS_DISPUTED;
                rec.milestones[mid as usize].resolved_at = Some(now);
                if status == MS_SUBMITTED {
                    rec.meta.submitted_count = rec.meta.submitted_count.saturating_sub(1);
                }
                proof {
                    lemma_milestones_update(ms0, mid as int, rec.milestones@[mid as int]);
                    assert(rec.milestones@ =~= ms0.update(mid as int, rec.milestones@[mid as int]));
                }
            }
        }
        proof {
            let o = raise_dispute_spec(s0, now, caller, id, milestone_id);
            assert(o is Ok);
            assert(rec@.meta =~= o->Ok_0.state.escrows[id].meta);
            assert(rec@.milestones =~= o->Ok_0.state.escrows[id].milestones);
            assert(rec@ == o->Ok_0.state.escrows[id]);
            lemma_take_put(s0, id, rec@);
            lemma_settled_wf(s0.escrows[id], p);
            assert(record_wf(rec@));
            lemma_with_escrow_wf(s0, id, rec@);
        }
        self.put_escrow(id, rec);
        Ok(())
    }
}

} // verus!
