//! Cancellation requests, slashing of the cancelling party, and dispute resolution.

use vstd::prelude::*;
use crate::constants::{CANCELLATION_DISPUTE_PERIOD, MAX_STRING_LEN, SLASH_DISPUTE_PERIOD, SLASH_PERCENTAGE};
use crate::errors::EscrowError;
use crate::escrow::{
    CancellationRequestView, EscrowContract, EscrowContractView, EscrowMetaView, EscrowRecordView,
    RentPlan, SlashRecordView, Step, access_spec, follows, lemma_settled_wf, lemma_take_put,
    lemma_with_escrow_wf, record_wf, rent_transfers, settle_fits, with_escrow,
};
use crate::escrow_cancel::with_meta;
use crate::escrow_lifecycle::admin_check;
use crate::escrow_milestones::entry_rent_transfer;
use crate::escrow_recurring::fits_i128;
use crate::escrow_reputation::{
    rep_update_fits, sat_add_u64, sat_sub_i128, sat_sub_u64, saturating_sub_i128, with_rep_update,
};
use crate::rent::{ContractStorage, reserve_spec};
use crate::schedule::slash_spec;
use crate::types::{AccountId, CancellationRequest, EscrowStatus, ReputationRecord, SlashRecord, Transfer};

verus! {

/// Checks of `request_cancellation` that come before the dispute deadline is computed.
pub open spec fn request_prechecks(s: EscrowContractView, now: u64, caller: AccountId, id: u64, reason: Seq<u8>) -> Result<(RentPlan, EscrowRecordView), EscrowError> {
    if s.admin is None {
        Err(EscrowError::NotInitialized)
    } else if s.paused {
        Err(EscrowError::ContractPaused)
    } else {
        match access_spec(s, id, now) {
            Err(e) => Err(e),
            Ok((p, rec)) => if caller != rec.meta.client && caller != rec.meta.freelancer {
                Err(EscrowError::Unauthorized)
            } else if reason.len() > MAX_STRING_LEN {
                Err(EscrowError::InvalidEscrowAmount)
            } else if rec.meta.status != EscrowStatus::Active {
                Err(EscrowError::EscrowNotActive)
            } else if rec.cancellation is Some {
                Err(EscrowError::CancellationAlreadyExists)
            } else {
                Ok((p, rec))
            },
        }
    }
}

/// Outcome of `request_cancellation`: a request with a dispute window of
/// `CANCELLATION_DISPUTE_PERIOD` is stored (its rent paid by the requester)
/// and the escrow awaits cancellation.
pub open spec fn request_cancellation_spec(s: EscrowContractView, now: u64, caller: AccountId, id: u64, reason: Seq<u8>) -> Result<Step<()>, EscrowError> {
    match request_prechecks(s, now, caller, id, reason) {
        Err(e) => Err(e),
        Ok((p, rec)) => if !fits_i128(rec.meta.rent_balance + reserve_spec(1)) {
            Err(EscrowError::AmountMismatch)
        } else {
            let req = CancellationRequestView {
                escrow_id: id,
                requester: caller,
                reason,
                requested_at: now,
                dispute_deadline: (now + CANCELLATION_DISPUTE_PERIOD) as u64,
                disputed: false,
                counterparty_approved: false,
            };
            let meta = EscrowMetaView {
                rent_balance: (rec.meta.rent_balance + reserve_spec(1)) as i128,
                status: EscrowStatus::CancellationPending,
                ..rec.meta
            };
            Ok(Step {
                value: (),
                state: with_escrow(s, id, EscrowRecordView { meta, cancellation: Some(req), ..rec }),
                transfers: rent_transfers(s, s.escrows[id], p) + entry_rent_transfer(s, rec.meta.token, caller, 1),
            })
        },
    }
}

/// Checks shared by the entry points that act on a pending cancellation request.
pub open spec fn cancellation_access(s: EscrowContractView, now: u64, id: u64) -> Result<(RentPlan, EscrowRecordView), EscrowError> {
    if s.admin is None {
        Err(EscrowError::NotInitialized)
    } else if s.paused {
        Err(EscrowError::ContractPaused)
    } else {
        match access_spec(s, id, now) {
            Err(e) => Err(e),
            Ok((p, rec)) => if rec.cancellation is None { Err(EscrowError::CancellationNotFound) } else { Ok((p, rec)) },
        }
    }
}

/// The party of `rec` that did not request the cancellation.
pub open spec fn counterparty(rec: EscrowRecordView) -> AccountId {
    if rec.cancellation->0.requester == rec.meta.client { rec.meta.freelancer } else { rec.meta.client }
}

/// Outcome of `client_approve_cancellation`: the counterparty waives the dispute window.
pub open spec fn approve_cancellation_spec(s: EscrowContractView, now: u64, caller: AccountId, id: u64) -> Result<Step<()>, EscrowError> {
    match cancellation_access(s, now, id) {
        Err(e) => Err(e),
        Ok((p, rec)) => if caller != counterparty(rec) {
            Err(EscrowError::Unauthorized)
        } else {
            let req = CancellationRequestView { counterparty_approved: true, ..rec.cancellation->0 };
            Ok(Step {
                value: (),
                state: with_escrow(s, id, EscrowRecordView { cancellation: Some(req), ..rec }),
                transfers: rent_transfers(s, s.escrows[id], p),
            })
        },
    }
}

/// Checks of `execute_cancellation` that come before the slash is computed.
pub open spec fn execute_prechecks(s: EscrowContractView, now: u64, id: u64) -> Result<(RentPlan, EscrowRecordView), EscrowError> {
    match cancellation_access(s, now, id) {
        Err(e) => Err(e),
        Ok((p, rec)) => {
            let req = rec.cancellation->0;
            if !req.counterparty_approved && now < req.dispute_deadline {
                Err(EscrowError::CancellationDisputePeriodActive)
            } else if req.disputed {
                Err(EscrowError::CancellationDisputed)
            } else {
                Ok((p, rec))
            }
        },
    }
}

/// Bytes of the reason recorded on a slash for a cancellation.
pub open spec fn cancellation_reason() -> Seq<u8> {
    seq![69u8, 115, 99, 114, 111, 119, 32, 99, 97, 110, 99, 101, 108, 108, 97, 116, 105, 111, 110]
}

/// The slashed party's reputation: 10 points off, one more slash of `amount`.
pub open spec fn rep_slashed(r: ReputationRecord, amount: i128, now: u64) -> ReputationRecord {
    ReputationRecord {
        total_score: sat_sub_u64(r.total_score, 10),
        slash_count: (r.slash_count + 1) as u32,
        total_slashed: (r.total_slashed + amount) as i128,
        last_updated: now,
        ..r
    }
}

/// Executing a cancellation is well defined: the slash and the slashed party's counters fit.
pub open spec fn execute_fits(s: EscrowContractView, now: u64, id: u64) -> bool {
    execute_prechecks(s, now, id) is Ok ==> {
        let rec = execute_prechecks(s, now, id)->Ok_0.1;
        let r = s.reputation_of(rec.cancellation->0.requester, now);
        &&& fits_i128(rec.meta.remaining_balance * (SLASH_PERCENTAGE as int))
        &&& r.slash_count < u32::MAX
        &&& fits_i128(r.total_slashed + slash_spec(rec.meta.remaining_balance))
    }
}

/// Outcome of `execute_cancellation`: the requester forfeits a tenth of the
/// remaining balance (held by the contract as a slash for the counterparty)
/// and gets the rest back; the escrow is cancelled.
pub open spec fn execute_cancellation_spec(s: EscrowContractView, now: u64, id: u64) -> Result<Step<()>, EscrowError> {
    match execute_prechecks(s, now, id) {
        Err(e) => Err(e),
        Ok((p, rec)) => {
            let req = rec.cancellation->0;
            let slash = slash_spec(rec.meta.remaining_balance) as i128;
            let refund = (rec.meta.remaining_balance - slash) as i128;
            let recipient = counterparty(rec);
            let record = SlashRecordView {
                escrow_id: id,
                slashed_user: req.requester,
                recipient,
                amount: slash,
                reason: cancellation_reason(),
                slashed_at: now,
                disputed: false,
            };
            let meta = EscrowMetaView { status: EscrowStatus::Cancelled, remaining_balance: 0, ..rec.meta };
            let s1 = EscrowContractView {
                reputations: s.reputations.insert(req.requester, rep_slashed(s.reputation_of(req.requester, now), slash, now)),
                ..s
            };
            Ok(Step {
                value: (),
                state: with_escrow(s1, id, EscrowRecordView { meta, cancellation: None, slash: Some(record), ..rec }),
                transfers: rent_transfers(s, s.escrows[id], p) + if refund > 0 {
                    seq![Transfer { token: rec.meta.token, from: s.contract_address, to: req.requester, amount: refund }]
                } else {
                    Seq::empty()
                },
            })
        },
    }
}

/// Outcome of `dispute_cancellation`: anyone but the requester may dispute
/// within the window; the escrow becomes disputed.
pub open spec fn dispute_cancellation_spec(s: EscrowContractView, now: u64, caller: AccountId, id: u64) -> Result<Step<()>, EscrowError> {
    match cancellation_access(s, now, id) {
        Err(e) => Err(e),
        Ok((p, rec)) => {
            let req = rec.cancellation->0;
            if caller == req.requester {
                Err(EscrowError::Unauthorized)
            } else if req.disputed {
                Err(EscrowError::CancellationAlreadyDisputed)
            } else if now >= req.dispute_deadline {
                Err(EscrowError::CancellationDisputeDeadlineExpired)
            } else {
                let req2 = CancellationRequestView { disputed: true, ..req };
                let meta = EscrowMetaView { status: EscrowStatus::Disputed, ..rec.meta };
                Ok(Step {
                    value: (),
                    state: with_escrow(s, id, EscrowRecordView { meta, cancellation: Some(req2), ..rec }),
                    transfers: rent_transfers(s, s.escrows[id], p),
                })
            }
        },
    }
}

/// Whether escrow `id` holds a slash record.
pub open spec fn has_slash(s: EscrowContractView, id: u64) -> bool {
    s.escrows.contains_key(id) && s.escrows[id].slash is Some
}

/// Checks of `finalize_slash` that come before the dispute deadline is computed.
pub open spec fn finalize_prechecks(s: EscrowContractView, id: u64) -> Result<SlashRecordView, EscrowError> {
    if s.admin is None {
        Err(EscrowError::NotInitialized)
    } else if s.paused {
        Err(EscrowError::ContractPaused)
    } else if !has_slash(s, id) {
        Err(EscrowError::SlashNotFound)
    } else if s.escrows[id].slash->0.disputed {
        Err(EscrowError::SlashAlreadyDisputed)
    } else {
        Ok(s.escrows[id].slash->0)
    }
}

/// Outcome of `finalize_slash`: after an undisputed dispute window the held
/// slash goes to its recipient.
pub open spec fn finalize_slash_spec(s: EscrowContractView, now: u64, id: u64) -> Result<Step<()>, EscrowError> {
    match finalize_prechecks(s, id) {
        Err(e) => Err(e),
        Ok(sr) => if now < sr.slashed_at + SLASH_DISPUTE_PERIOD {
            Err(EscrowError::SlashDisputeDeadlineExpired)
        } else {
            let rec = s.escrows[id];
            Ok(Step {
                value: (),
                state: with_escrow(s, id, EscrowRecordView { slash: None, ..rec }),
                transfers: seq![Transfer { token: rec.meta.token, from: s.contract_address, to: sr.recipient, amount: sr.amount }],
            })
        },
    }
}

/// Checks of `dispute_slash` that come before the dispute deadline is computed.
pub open spec fn dispute_slash_prechecks(s: EscrowContractView, now: u64, caller: AccountId, id: u64) -> Result<(RentPlan, EscrowRecordView), EscrowError> {
    if s.paused {
        Err(EscrowError::ContractPaused)
    } else {
        match access_spec(s, id, now) {
            Err(e) => Err(e),
            Ok((p, rec)) => if rec.slash is None {
                Err(EscrowError::SlashNotFound)
            } else if caller != rec.slash->0.slashed_user {
                Err(EscrowError::Unauthorized)
            } else if rec.slash->0.disputed {
                Err(EscrowError::SlashAlreadyDisputed)
            } else {
                Ok((p, rec))
            },
        }
    }
}

/// Outcome of `dispute_slash`: the slashed user disputes within the window.
pub open spec fn dispute_slash_spec(s: EscrowContractView, now: u64, caller: AccountId, id: u64) -> Result<Step<()>, EscrowError> {
    match dispute_slash_prechecks(s, now, caller, id) {
        Err(e) => Err(e),
        Ok((p, rec)) => if now >= rec.slash->0.slashed_at + SLASH_DISPUTE_PERIOD {
            Err(EscrowError::SlashDisputeDeadlineExpired)
        } else {
            let sr = SlashRecordView { disputed: true, ..rec.slash->0 };
            Ok(Step {
                value: (),
                state: with_escrow(s, id, EscrowRecordView { slash: Some(sr), ..rec }),
                transfers: rent_transfers(s, s.escrows[id], p),
            })
        },
    }
}

/// The slashed party's reputation after a slash of `amount` is reversed.
pub open spec fn rep_restored(r: ReputationRecord, amount: i128) -> ReputationRecord {
    ReputationRecord {
        slash_count: if r.slash_count > 0 { (r.slash_count - 1) as u32 } else { 0u32 },
        total_slashed: sat_sub_i128(r.total_slashed, amount),
        total_score: sat_add_u64(r.total_score, 10),
        ..r
    }
}

/// Whether `caller` is the arbiter of `rec`.
pub open spec fn is_arbiter(rec: EscrowRecordView, caller: AccountId) -> bool {
    rec.meta.arbiter == Some(caller)
}

/// Outcome of `resolve_slash_dispute`: the arbiter or the admin upholds a
/// disputed slash (the held amount goes to its recipient) or reverses it (the
/// slashed user is refunded and regains reputation); either way the slash
/// record goes.
pub open spec fn resolve_slash_spec(s: EscrowContractView, now: u64, caller: AccountId, id: u64, upheld: bool) -> Result<Step<()>, EscrowError> {
    if s.paused {
        Err(EscrowError::ContractPaused)
    } else if !has_slash(s, id) {
        Err(EscrowError::SlashNotFound)
    } else {
        match access_spec(s, id, now) {
            Err(e) => Err(e),
            Ok((p, rec)) => if !is_arbiter(rec, caller) && admin_check(s, caller) is Err {
                Err(admin_check(s, caller)->Err_0)
            } else if !rec.slash->0.disputed {
                Err(EscrowError::SlashNotFound)
            } else {
                let sr = rec.slash->0;
                let s1 = if upheld {
                    s
                } else {
                    EscrowContractView {
                        reputations: s.reputations.insert(sr.slashed_user, rep_restored(s.reputation_of(sr.slashed_user, now), sr.amount)),
                        ..s
                    }
                };
                Ok(Step {
                    value: (),
                    state: with_escrow(s1, id, EscrowRecordView { slash: None, ..rec }),
                    transfers: rent_transfers(s, s.escrows[id], p) + if upheld {
                        seq![Transfer { token: rec.meta.token, from: s.contract_address, to: sr.recipient, amount: sr.amount }]
                    } else {
                        seq![Transfer { token: rec.meta.token, from: s.contract_address, to: sr.slashed_user, amount: sr.amount }]
                    },
                })
            },
        }
    }
}

/// Checks of `resolve_dispute` that come before the amounts are added.
pub open spec fn resolve_prechecks(s: EscrowContractView, now: u64, caller: AccountId, id: u64) -> Result<(RentPlan, EscrowRecordView), EscrowError> {
    if s.paused {
        Err(EscrowError::ContractPaused)
    } else {
        match access_spec(s, id, now) {
            Err(e) => Err(e),
            Ok((p, rec)) => if !is_arbiter(rec, caller) && admin_check(s, caller) is Err {
                Err(admin_check(s, caller)->Err_0)
            } else if rec.meta.status != EscrowStatus::Disputed {
                Err(EscrowError::EscrowNotDisputed)
            } else {
                Ok((p, rec))
            },
        }
    }
}

/// Resolving a dispute is well defined: the two amounts add up in an `i128`
/// and both parties' dispute counters fit.
pub open spec fn resolve_fits(s: EscrowContractView, now: u64, caller: AccountId, id: u64, client_amount: i128, freelancer_amount: i128) -> bool {
    resolve_prechecks(s, now, caller, id) is Ok ==> {
        let rec = resolve_prechecks(s, now, caller, id)->Ok_0.1;
        &&& fits_i128(client_amount + freelancer_amount)
        &&& rep_update_fits(s.reputation_of(rec.meta.client, now), false, true, client_amount)
        &&& rep_update_fits(
            with_rep_update(s, rec.meta.client, false, true, client_amount, now).reputation_of(rec.meta.freelancer, now),
            false, true, freelancer_amount)
    }
}

/// Outcome of `resolve_dispute`: the arbiter or the admin splits the whole
/// remaining balance between client and freelancer; the escrow completes and
/// both parties record a disputed escrow.
pub open spec fn resolve_dispute_spec(s: EscrowContractView, now: u64, caller: AccountId, id: u64, client_amount: i128, freelancer_amount: i128) -> Result<Step<()>, EscrowError> {
    match resolve_prechecks(s, now, caller, id) {
        Err(e) => Err(e),
        Ok((p, rec)) => if client_amount + freelancer_amount != rec.meta.remaining_balance {
            Err(EscrowError::AmountMismatch)
        } else {
            let m = rec.meta;
            let meta = EscrowMetaView { remaining_balance: 0, status: EscrowStatus::Completed, ..m };
            let s1 = with_escrow(s, id, with_meta(rec, meta));
            let s2 = with_rep_update(s1, m.client, false, true, client_amount, now);
            let s3 = with_rep_update(s2, m.freelancer, false, true, freelancer_amount, now);
            Ok(Step {
                value: (),
                state: s3,
                transfers: rent_transfers(s, s.escrows[id], p)
                    + (if client_amount > 0 {
                        seq![Transfer { token: m.token, from: s.contract_address, to: m.client, amount: client_amount }]
                    } else {
                        Seq::empty()
                    })
                    + (if freelancer_amount > 0 {
                        seq![Transfer { token: m.token, from: s.contract_address, to: m.freelancer, amount: freelancer_amount }]
                    } else {
                        Seq::empty()
                    }),
            })
        },
    }
}

/// Reason bytes recorded on a slash for a cancellation.
pub fn cancellation_reason_bytes() -> (r: Vec<u8>)
    ensures
        r@ == cancellation_reason(),
{
    let r = vec![69u8, 115, 99, 114, 111, 119, 32, 99, 97, 110, 99, 101, 108, 108, 97, 116, 105, 111, 110];
    assert(r@ =~= cancellation_reason());
    r
}

impl EscrowContract {
    /// The client or the freelancer asks to cancel an active escrow, paying
    /// the rent reserve of the request.
    pub fn request_cancellation(&mut self, now: u64, caller: AccountId, id: u64, reason: Vec<u8>, transfers: &mut Vec<Transfer>) -> (r: Result<(), EscrowError>)
        requires
            old(self)@.wf(),
            settle_fits(old(self)@, id, now),
            request_prechecks(old(self)@, now, caller, id, reason@) is Ok ==> now + CANCELLATION_DISPUTE_PERIOD <= u64::MAX,
        ensures
            final(self)@.wf(),
            follows(r, request_cancellation_spec(old(self)@, now, caller, id, reason@), old(self)@, final(self)@, old(transfers)@, final(transfers)@),
    {
        if self.admin.is_none() {
            return Err(EscrowError::NotInitialized);
        }
        if self.paused {
            return Err(EscrowError::ContractPaused);
        }
        let p = match self.plan_rent(id, now) {
            Ok(p) => p,
            Err(e) => return Err(e),
        };
        let ghost s0 = self@;
        let rec = self.record_ref(id);
        if caller != rec.meta.client && caller != rec.meta.freelancer {
            return Err(EscrowError::Unauthorized);
        }
        if reason.len() > MAX_STRING_LEN as usize {
            return Err(EscrowError::InvalidEscrowAmount);
        }
        if rec.meta.status != EscrowStatus::Active {
            return Err(EscrowError::EscrowNotActive);
        }
        if rec.cancellation.is_some() {
            return Err(EscrowError::CancellationAlreadyExists);
        }
        let dispute_deadline = now + CANCELLATION_DISPUTE_PERIOD;
        let reserve = ContractStorage::reserve_for_entries(1);
        let new_rent = match p.rent_balance.checked_add(reserve) {
            Some(v) => v,
            None => return Err(EscrowError::AmountMismatch),
        };
        let token = rec.meta.token;
        let mut rec = self.take_escrow(id);
        self.apply_rent(&mut rec, p, transfers);
        if reserve > 0 {
            transfers.push(Transfer { token, from: caller, to: self.contract_address, amount: reserve });
        }
        rec.meta.rent_balance = new_rent;
        rec.meta.status = EscrowStatus::CancellationPending;
        rec.cancellation = Some(CancellationRequest {
            escrow_id: id,
            requester: caller,
            reason,
            requested_at: now,
            dispute_deadline,
            disputed: false,
            counterparty_approved: false,
        });
        proof {
            let o = request_cancellation_spec(s0, now, caller, id, reason@);
            assert(o is Ok);
            assert(rec@.meta =~= o->Ok_0.state.escrows[id].meta);
            assert(rec@ == o->Ok_0.state.escrows[id]);
            lemma_take_put(s0, id, rec@);
            lemma_settled_wf(s0.escrows[id], p);
            lemma_with_escrow_wf(s0, id, rec@);
        }
        self.put_escrow(id, rec);
        proof {
            let o = request_cancellation_spec(s0, now, caller, id, reason@);
            assert(final(transfers)@ =~= old(transfers)@ + o->Ok_0.transfers);
        }
        Ok(())
    }

    /// Checks shared by the entry points on a pending cancellation request.
    fn cancellation_checks(&self, now: u64, id: u64) -> (r: Result<RentPlan, EscrowError>)
        requires
            self@.wf(),
            settle_fits(self@, id, now),
        ensures
            match cancellation_access(self@, now, id) {
                Ok((p, rec)) => r == Ok::<RentPlan, EscrowError>(p) && self@.escrows.contains_key(id)
                    && p.rent_balance >= 0 && (p.collectable > 0 ==> self@.admin is Some),
                Err(e) => r == Err::<RentPlan, EscrowError>(e),
            },
    {
        if self.admin.is_none() {
            return Err(EscrowError::NotInitialized);
        }
        if self.paused {
            return Err(EscrowError::ContractPaused);
        }
        let p = match self.plan_rent(id, now) {
            Ok(p) => p,
            Err(e) => return Err(e),
        };
        let rec = self.record_ref(id);
        if rec.cancellation.is_none() {
            return Err(EscrowError::CancellationNotFound);
        }
        Ok(p)
    }

    /// The counterparty of a cancellation request approves it, so that it can
    /// be executed before the dispute window ends.
    pub fn client_approve_cancellation(&mut self, now: u64, caller: AccountId, id: u64, transfers: &mut Vec<Transfer>) -> (r: Result<(), EscrowError>)
        requires
            old(self)@.wf(),
            settle_fits(old(self)@, id, now),
        ensures
            final(self)@.wf(),
            follows(r, approve_cancellation_spec(old(self)@, now, caller, id), old(self)@, final(self)@, old(transfers)@, final(transfers)@),
    {
        let p = match self.cancellation_checks(now, id) {
            Ok(p) => p,
            Err(e) => return Err(e),
        };
        let ghost s0 = self@;
        let rec = self.record_ref(id);
        let requester = match &rec.cancellation {
            Some(req) => req.requester,
            None => return Err(EscrowError::CancellationNotFound),
        };
        let counterparty = if requester == rec.meta.client { rec.meta.freelancer } else { rec.meta.client };
        if caller != counterparty {
            return Err(EscrowError::Unauthorized);
        }
        let mut rec = self.take_escrow(id);
        self.apply_rent(&mut rec, p, transfers);
        let mut req = rec.cancellation.unwrap();
        req.counterparty_approved = true;
        rec.cancellation = Some(req);
        proof {
            let o = approve_cancellation_spec(s0, now, caller, id);
            assert(o is Ok);
            assert(rec@ == o->Ok_0.state.escrows[id]);
            lemma_take_put(s0, id, rec@);
            lemma_settled_wf(s0.escrows[id], p);
            lemma_with_escrow_wf(s0, id, rec@);
        }
        self.put_escrow(id, rec);
        Ok(())
    }

    /// Executes a cancellation once its dispute window has passed (or the
    /// counterparty approved it): the requester is slashed a tenth of the
    /// remaining balance and refunded the rest.
    pub fn execute_cancellation(&mut self, now: u64, id: u64, transfers: &mut Vec<Transfer>) -> (r: Result<(), EscrowError>)
        requires
            old(self)@.wf(),
            settle_fits(old(self)@, id, now),
            execute_fits(old(self)@, now, id),
        ensures
            final(self)@.wf(),
            follows(r, execute_cancellation_spec(old(self)@, now, id), old(self)@, final(self)@, old(transfers)@, final(transfers)@),
    {
        let p = match self.cancellation_checks(now, id) {
            Ok(p) => p,
            Err(e) => return Err(e),
        };
        let ghost s0 = self@;
        let rec = self.record_ref(id);
        let (requester, approved, deadline, disputed) = match &rec.cancellation {
            Some(req) => (req.requester, req.counterparty_approved, req.dispute_deadline, req.disputed),
            None => return Err(EscrowError::CancellationNotFound),
        };
        if !approved && now < deadline {
            return Err(EscrowError::CancellationDisputePeriodActive);
        }
        if disputed {
            return Err(EscrowError::CancellationDisputed);
        }
        let remaining = rec.meta.remaining_balance;
        let slash_amount = Self::calculate_slash_amount(remaining);
        proof {
            assert(slash_amount as int == crate::rent::trunc_div(remaining * 10, 100));
            assert(-(remaining as int) <= -(slash_amount as int) <= remaining || remaining <= -(slash_amount as int) <= -(remaining as int)) by (nonlinear_arith)
                requires slash_amount as int == crate::rent::trunc_div(remaining * 10, 100);
        }
        let refund = remaining - slash_amount;
        let recipient = if requester == rec.meta.client { rec.meta.freelancer } else { rec.meta.client };
        let token = rec.meta.token;
        let mut reputation = self.load_reputation(now, requester);
        reputation.total_score = reputation.total_score.saturating_sub(10);
        reputation.slash_count = reputation.slash_count + 1;
        reputation.total_slashed = reputation.total_slashed + slash_amount;
        reputation.last_updated = now;
        let mut rec = self.take_escrow(id);
        self.apply_rent(&mut rec, p, transfers);
        let ghost s_taken = self@;
        self.save_reputation(reputation);
        rec.slash = Some(SlashRecord {
            escrow_id: id,
            slashed_user: requester,
            recipient,
            amount: slash_amount,
            reason: cancellation_reason_bytes(),
            slashed_at: now,
            disputed: false,
        });
        if refund > 0 {
            transfers.push(Transfer { token, from: self.contract_address, to: requester, amount: refund });
        }
        rec.meta.status = EscrowStatus::Cancelled;
        rec.meta.remaining_balance = 0;
        rec.cancellation = None;
        proof {
            let o = execute_cancellation_spec(s0, now, id);
            assert(o is Ok);
            assert(reputation == rep_slashed(s0.reputation_of(requester, now), slash_amount, now));
            assert(rec@.meta =~= o->Ok_0.state.escrows[id].meta);
            assert(rec@ == o->Ok_0.state.escrows[id]);
            let s1 = EscrowContractView {
                reputations: s0.reputations.insert(requester, reputation),
                ..s0
            };
            lemma_take_put(s1, id, rec@);
            lemma_settled_wf(s0.escrows[id], p);
            assert(record_wf(rec@));
            assert(self@ == crate::escrow::without_escrow(s1, id));
            assert(s1.wf()) by {
                assert forall|a: AccountId| #[trigger] s1.reputations.contains_key(a) implies s1.reputations[a].address == a by {
                    if a != requester {
                        assert(s0.reputations.contains_key(a));
                    }
                }
            }
            lemma_with_escrow_wf(s1, id, rec@);
        }
        self.put_escrow(id, rec);
        proof {
            let o = execute_cancellation_spec(s0, now, id);
            assert(final(transfers)@ =~= old(transfers)@ + o->Ok_0.transfers);
        }
        Ok(())
    }

    /// Anyone but the requester disputes a cancellation request within its window.
    pub fn dispute_cancellation(&mut self, now: u64, caller: AccountId, id: u64, transfers: &mut Vec<Transfer>) -> (r: Result<(), EscrowError>)
        requires
            old(self)@.wf(),
            settle_fits(old(self)@, id, now),
        ensures
            final(self)@.wf(),
            follows(r, dispute_cancellation_spec(old(self)@, now, caller, id), old(self)@, final(self)@, old(transfers)@, final(transfers)@),
    {
        let p = match self.cancellation_checks(now, id) {
            Ok(p) => p,
            Err(e) => return Err(e),
        };
        let ghost s0 = self@;
        let rec = self.record_ref(id);
        let (requester, disputed, deadline) = match &rec.cancellation {
            Some(req) => (req.requester, req.disputed, req.dispute_deadline),
            None => return Err(EscrowError::CancellationNotFound),
        };
        if caller == requester {
            return Err(EscrowError::Unauthorized);
        }
        if disputed {
            return Err(EscrowError::CancellationAlreadyDisputed);
        }
        if now >= deadline {
            return Err(EscrowError::CancellationDisputeDeadlineExpired);
        }
        let mut rec = self.take_escrow(id);
        self.apply_rent(&mut rec, p, transfers);
        let mut req = rec.cancellation.unwrap();
        req.disputed = true;
        rec.cancellation = Some(req);
        rec.meta.status = EscrowStatus::Disputed;
        proof {
            let o = dispute_cancellation_spec(s0, now, caller, id);
            assert(o is Ok);
            assert(rec@.meta =~= o->Ok_0.state.escrows[id].meta);
            assert(rec@ == o->Ok_0.state.escrows[id]);
            lemma_take_put(s0, id, rec@);
            lemma_settled_wf(s0.escrows[id], p);
            lemma_with_escrow_wf(s0, id, rec@);
        }
        self.put_escrow(id, rec);
        Ok(())
    }

    /// Pays a held slash to its recipient once its dispute window has passed
    /// without a dispute.
    pub fn finalize_slash(&mut self, now: u64, id: u64, transfers: &mut Vec<Transfer>) -> (r: Result<(), EscrowError>)
        requires
            old(self)@.wf(),
            finalize_prechecks(old(self)@, id) is Ok ==> finalize_prechecks(old(self)@, id)->Ok_0.slashed_at + SLASH_DISPUTE_PERIOD <= u64::MAX,
        ensures
            final(self)@.wf(),
            follows(r, finalize_slash_spec(old(self)@, now, id), old(self)@, final(self)@, old(transfers)@, final(transfers)@),
    {
        if self.admin.is_none() {
            return Err(EscrowError::NotInitialized);
        }
        if self.paused {
            return Err(EscrowError::ContractPaused);
        }
        let ghost s0 = self@;
        let (slashed_at, recipient, amount, token) = match self.escrows.get(&id) {
            None => return Err(EscrowError::SlashNotFound),
            Some(rec) => match &rec.slash {
                None => return Err(EscrowError::SlashNotFound),
                Some(sr) => {
                    if sr.disputed {
                        return Err(EscrowError::SlashAlreadyDisputed);
                    }
                    (sr.slashed_at, sr.recipient, sr.amount, rec.meta.token)
                },
            },
        };
        if now < slashed_at + SLASH_DISPUTE_PERIOD {
            return Err(EscrowError::SlashDisputeDeadlineExpired);
        }
        let mut rec = self.take_escrow(id);
        transfers.push(Transfer { token, from: self.contract_address, to: recipient, amount });
        rec.slash = None;
        proof {
            let o = finalize_slash_spec(s0, now, id);
            assert(o is Ok);
            assert(rec@ == o->Ok_0.state.escrows[id]);
            lemma_take_put(s0, id, rec@);
            assert(record_wf(s0.escrows[id]));
            lemma_with_escrow_wf(s0, id, rec@);
        }
        self.put_escrow(id, rec);
        proof {
            let o = finalize_slash_spec(s0, now, id);
            assert(final(transfers)@ =~= old(transfers)@ + o->Ok_0.transfers);
        }
        Ok(())
    }

    /// The slashed user disputes a slash within its dispute window.
    pub fn dispute_slash(&mut self, now: u64, caller: AccountId, id: u64, transfers: &mut Vec<Transfer>) -> (r: Result<(), EscrowError>)
        requires
            old(self)@.wf(),
            settle_fits(old(self)@, id, now),
            dispute_slash_prechecks(old(self)@, now, caller, id) is Ok ==>
                dispute_slash_prechecks(old(self)@, now, caller, id)->Ok_0.1.slash->0.slashed_at + SLASH_DISPUTE_PERIOD <= u64::MAX,
        ensures
            final(self)@.wf(),
            follows(r, dispute_slash_spec(old(self)@, now, caller, id), old(self)@, final(self)@, old(transfers)@, final(transfers)@),
    {
        if self.paused {
            return Err(EscrowError::ContractPaused);
        }
        let p = match self.plan_rent(id, now) {
            Ok(p) => p,
            Err(e) => return Err(e),
        };
        let ghost s0 = self@;
        let rec = self.record_ref(id);
        let (slashed_user, disputed, slashed_at) = match &rec.slash {
            None => return Err(EscrowError::SlashNotFound),
            Some(sr) => (sr.slashed_user, sr.disputed, sr.slashed_at),
        };
        if caller != slashed_user {
            return Err(EscrowError::Unauthorized);
        }
        if disputed {
            return Err(EscrowError::SlashAlreadyDisputed);
        }
        if now >= slashed_at + SLASH_DISPUTE_PERIOD {
            return Err(EscrowError::SlashDisputeDeadlineExpired);
        }
        let mut rec = self.take_escrow(id);
        self.apply_rent(&mut rec, p, transfers);
        let mut sr = rec.slash.unwrap();
        sr.disputed = true;
        rec.slash = Some(sr);
        proof {
            let o = dispute_slash_spec(s0, now, caller, id);
            assert(o is Ok);
            assert(rec@ == o->Ok_0.state.escrows[id]);
            lemma_take_put(s0, id, rec@);
            lemma_settled_wf(s0.escrows[id], p);
            lemma_with_escrow_wf(s0, id, rec@);
        }
        self.put_escrow(id, rec);
        Ok(())
    }

    /// The arbiter or the admin upholds or reverses a disputed slash.
    pub fn resolve_slash_dispute(&mut self, now: u64, caller: AccountId, id: u64, upheld: bool, transfers: &mut Vec<Transfer>) -> (r: Result<(), EscrowError>)
        requires
            old(self)@.wf(),
            settle_fits(old(self)@, id, now),
        ensures
            final(self)@.wf(),
            follows(r, resolve_slash_spec(old(self)@, now, caller, id, upheld), old(self)@, final(self)@, old(transfers)@, final(transfers)@),
    {
        if self.paused {
            return Err(EscrowError::ContractPaused);
        }
        match self.escrows.get(&id) {
            None => return Err(EscrowError::SlashNotFound),
            Some(rec) => if rec.slash.is_none() {
                return Err(EscrowError::SlashNotFound);
            },
        }
        let p = match self.plan_rent(id, now) {
            Ok(p) => p,
            Err(e) => return Err(e),
        };
        let ghost s0 = self@;
        let rec = self.record_ref(id);
        let arbiter = match rec.meta.arbiter {
            Some(a) => a == caller,
            None => false,
        };
        if !arbiter {
            if let Err(e) = self.require_admin(caller) {
                return Err(e);
            }
        }
        let (slashed_user, recipient, amount, disputed) = match &rec.slash {
            None => return Err(EscrowError::SlashNotFound),
            Some(sr) => (sr.slashed_user, sr.recipient, sr.amount, sr.disputed),
        };
        if !disputed {
            return Err(EscrowError::SlashNotFound);
        }
        let token = rec.meta.token;
        let mut rec = self.take_escrow(id);
        self.apply_rent(&mut rec, p, transfers);
        let ghost s_taken = self@;
        if upheld {
            transfers.push(Transfer { token, from: self.contract_address, to: recipient, amount });
        } else {
            transfers.push(Transfer { token, from: self.contract_address, to: slashed_user, amount });
            let mut reputation = self.load_reputation(now, slashed_user);
            reputation.slash_count = reputation.slash_count.saturating_sub(1);
            reputation.total_slashed = saturating_sub_i128(reputation.total_slashed, amount);
            reputation.total_score = reputation.total_score.saturating_add(10);
            self.save_reputation(reputation);
        }
        rec.slash = None;
        proof {
            let o = resolve_slash_spec(s0, now, caller, id, upheld);
            assert(o is Ok);
            assert(rec@ == o->Ok_0.state.escrows[id]);
            let s1 = if upheld {
                s0
            } else {
                EscrowContractView {
                    reputations: s0.reputations.insert(slashed_user, rep_restored(s0.reputation_of(slashed_user, now), amount)),
                    ..s0
                }
            };
            lemma_take_put(s1, id, rec@);
            lemma_settled_wf(s0.escrows[id], p);
            assert(self@ == crate::escrow::without_escrow(s1, id));
            assert(s1.wf()) by {
                assert forall|a: AccountId| #[trigger] s1.reputations.contains_key(a) implies s1.reputations[a].address == a by {
                    if a != slashed_user {
                        assert(s0.reputations.contains_key(a));
                    }
                }
            }
            lemma_with_escrow_wf(s1, id, rec@);
        }
        self.put_escrow(id, rec);
        proof {
            let o = resolve_slash_spec(s0, now, caller, id, upheld);
            assert(final(transfers)@ =~= old(transfers)@ + o->Ok_0.transfers);
        }
        Ok(())
    }

    /// The arbiter or the admin splits the remaining balance of a disputed
    /// escrow between client and freelancer.
    pub fn resolve_dispute(
        &mut self,
        now: u64,
        caller: AccountId,
        id: u64,
        client_amount: i128,
        freelancer_amount: i128,
        transfers: &mut Vec<Transfer>,
    ) -> (r: Result<(), EscrowError>)
        requires
            old(self)@.wf(),
            settle_fits(old(self)@, id, now),
            resolve_fits(old(self)@, now, caller, id, client_amount, freelancer_amount),
        ensures
            final(self)@.wf(),
            follows(
                r,
                resolve_dispute_spec(old(self)@, now, caller, id, client_amount, freelancer_amount),
                old(self)@, final(self)@, old(transfers)@, final(transfers)@,
            ),
    {
        if self.paused {
            return Err(EscrowError::ContractPaused);
        }
        let p = match self.plan_rent(id, now) {
            Ok(p) => p,
            Err(e) => return Err(e),
        };
        let ghost s0 = self@;
        let rec = self.record_ref(id);
        let arbiter = match rec.meta.arbiter {
            Some(a) => a == caller,
            None => false,
        };
        if !arbiter {
            if let Err(e) = self.require_admin(caller) {
                return Err(e);
            }
        }
        if rec.meta.status != EscrowStatus::Disputed {
            return Err(EscrowError::EscrowNotDisputed);
        }
        if client_amount + freelancer_amount != rec.meta.remaining_balance {
            return Err(EscrowError::AmountMismatch);
        }
        let token = rec.meta.token;
        let client = rec.meta.client;
        let freelancer = rec.meta.freelancer;
        let mut rec = self.take_escrow(id);
        self.apply_rent(&mut rec, p, transfers);
        if client_amount > 0 {
            transfers.push(Transfer { token, from: self.contract_address, to: client, amount: client_amount });
        }
        if freelancer_amount > 0 {
            transfers.push(Transfer { token, from: self.contract_address, to: freelancer, amount: freelancer_amount });
        }
        rec.meta.remaining_balance = 0;
        rec.meta.status = EscrowStatus::Completed;
        proof {
            let m = s0.escrows[id].meta;
            lemma_take_put(s0, id, rec@);
            lemma_settled_wf(s0.escrows[id], p);
            lemma_with_escrow_wf(s0, id, rec@);
            assert(rec@ == with_meta(crate::escrow::settled_record(s0.escrows[id], p),
                EscrowMetaView { remaining_balance: 0, status: EscrowStatus::Completed, ..crate::escrow::settled_record(s0.escrows[id], p).meta }));
        }
        self.put_escrow(id, rec);
        let ghost s1 = self@;
        proof {
            assert(s1.reputations == s0.reputations);
            assert(s1.reputation_of(client, now) == s0.reputation_of(client, now));
        }
        self.update_reputation_internal(now, client, false, true, client_amount);
        proof {
            assert(self@.reputation_of(freelancer, now)
                == with_rep_update(s0, client, false, true, client_amount, now).reputation_of(freelancer, now));
        }
        self.update_reputation_internal(now, freelancer, false, true, freelancer_amount);
        proof {
            let o = resolve_dispute_spec(s0, now, caller, id, client_amount, freelancer_amount);
            assert(o is Ok);
            assert(self@ == o->Ok_0.state);
            assert(final(transfers)@ =~= old(transfers)@ + o->Ok_0.transfers);
        }
        Ok(())
    }
}

} // verus!
