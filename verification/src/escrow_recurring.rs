//! Recurring escrows: a schedule of equal payments released automatically
//! as they fall due.

use vstd::prelude::*;
use crate::errors::EscrowError;
use crate::escrow::{
    EscrowContract, EscrowContractView, EscrowMetaView, EscrowRecord, EscrowRecordView, MilestoneView,
    Step, access_spec, follows, lemma_milestones_push, lemma_settled_wf, lemma_take_put,
    lemma_with_escrow_wf, record_wf, rent_transfers, settle_fits, view_milestones, with_escrow,
};
use crate::escrow_lifecycle::new_meta;
use crate::rent::{ContractStorage, reserve_spec};
use crate::schedule::{next_time_spec, total_payments_spec};
use crate::types::{
    AccountId, EscrowMeta, EscrowStatus, Hash32, Milestone, RecurringInterval,
    RecurringPaymentConfig, Transfer, MS_RELEASED,
};

verus! {

/// Whether `x` fits an `i128`.
pub open spec fn fits_i128(x: int) -> bool {
    i128::MIN <= x <= i128::MAX
}

/// Validation of a new recurring escrow, in the order the contract checks.
pub open spec fn recurring_checks(
    s: EscrowContractView,
    now: u64,
    client: AccountId,
    freelancer: AccountId,
    payment_amount: i128,
    interval: RecurringInterval,
    start_time: u64,
    end_date: Option<u64>,
    number_of_payments: Option<u32>,
) -> Result<u32, EscrowError> {
    if s.admin is None {
        Err(EscrowError::NotInitialized)
    } else if s.paused {
        Err(EscrowError::ContractPaused)
    } else if client == freelancer {
        Err(EscrowError::Unauthorized)
    } else if payment_amount <= 0 {
        Err(EscrowError::InvalidMilestoneAmount)
    } else if start_time <= now {
        Err(EscrowError::InvalidRecurringSchedule)
    } else {
        match total_payments_spec(start_time, interval, end_date, number_of_payments) {
            Err(e) => Err(e),
            Ok(t) => if !fits_i128(payment_amount * t) { Err(EscrowError::AmountMismatch) } else { Ok(t) },
        }
    }
}

/// A fresh schedule of `total` payments starting at `start_time`.
pub open spec fn new_schedule(
    interval: RecurringInterval,
    payment_amount: i128,
    start_time: u64,
    end_date: Option<u64>,
    total: u32,
) -> RecurringPaymentConfig {
    RecurringPaymentConfig {
        interval,
        payment_amount,
        start_time,
        next_payment_at: start_time,
        end_date,
        total_payments: total,
        payments_remaining: total,
        processed_payments: 0,
        paused: false,
        cancelled: false,
        paused_at: None,
        last_payment_at: None,
    }
}

/// Outcome of `create_recurring_escrow`: the client escrows every payment up
/// front, plus the rent reserves of the header and of the schedule.
pub open spec fn create_recurring_spec(
    s: EscrowContractView,
    now: u64,
    client: AccountId,
    freelancer: AccountId,
    token: AccountId,
    payment_amount: i128,
    interval: RecurringInterval,
    start_time: u64,
    end_date: Option<u64>,
    number_of_payments: Option<u32>,
    brief_hash: Hash32,
) -> Result<Step<u64>, EscrowError> {
    match recurring_checks(s, now, client, freelancer, payment_amount, interval, start_time, end_date, number_of_payments) {
        Err(e) => Err(e),
        Ok(total) => {
            let id = s.counter();
            let amount = (payment_amount * total) as i128;
            let rent = reserve_spec(1) as i128;
            let meta = new_meta(
                id, now, client, freelancer, token, amount, brief_hash, None, None, None,
                seq![client], (rent + rent) as i128,
            );
            let rec = EscrowRecordView {
                meta,
                milestones: Seq::empty(),
                recurring: Some(new_schedule(interval, payment_amount, start_time, end_date, total)),
                cancellation: None,
                slash: None,
            };
            let s1 = EscrowContractView { escrow_counter: Some((id + 1) as u64), ..s };
            Ok(Step {
                value: id,
                state: with_escrow(s1, id, rec),
                transfers: seq![
                    Transfer { token, from: client, to: s.contract_address, amount },
                    Transfer { token, from: client, to: s.contract_address, amount: rent },
                    Transfer { token, from: client, to: s.contract_address, amount: rent },
                ],
            })
        },
    }
}

/// Counters carried through the release of due payments.
pub struct RunState {
    pub count: u32,
    pub approved: u32,
    pub allocated: i128,
    pub balance: i128,
    pub processed: u32,
    pub remaining: u32,
    pub next: u64,
    pub total: i128,
    pub steps: u32,
    /// Due times of the payments released so far.
    pub times: Seq<u64>,
}

/// Releases the payments due at `now`, one per step, until none is due, the
/// schedule runs out, or the next due time passes the end date. Each payment
/// adds a milestone, approved and marked released, and moves `payment` to the freelancer.
pub open spec fn run_payments(
    st: RunState,
    payment: i128,
    interval: RecurringInterval,
    end_date: Option<u64>,
    now: u64,
) -> Result<RunState, EscrowError>
    decreases st.remaining,
{
    if st.remaining == 0 || now < st.next {
        Ok(st)
    } else if st.count == u32::MAX || st.approved == u32::MAX {
        Err(EscrowError::TooManyMilestones)
    } else if !fits_i128(st.allocated + payment) || !fits_i128(st.balance - payment) {
        Err(EscrowError::AmountMismatch)
    } else if st.processed == u32::MAX {
        Err(EscrowError::TooManyMilestones)
    } else if !fits_i128(st.total + payment) {
        Err(EscrowError::AmountMismatch)
    } else {
        let s1 = RunState {
            count: (st.count + 1) as u32,
            approved: (st.approved + 1) as u32,
            allocated: (st.allocated + payment) as i128,
            balance: (st.balance - payment) as i128,
            processed: (st.processed + 1) as u32,
            remaining: (st.remaining - 1) as u32,
            total: (st.total + payment) as i128,
            steps: (st.steps + 1) as u32,
            times: st.times.push(st.next),
            ..st
        };
        if s1.remaining == 0 {
            Ok(RunState { next: 0, ..s1 })
        } else {
            match next_time_spec(st.next, interval) {
                Err(e) => Err(e),
                Ok(n2) => if end_date is Some && n2 > end_date->0 {
                    Ok(RunState { remaining: 0, next: 0, ..s1 })
                } else {
                    run_payments(RunState { next: n2, ..s1 }, payment, interval, end_date, now)
                },
            }
        }
    }
}

/// Bytes of the title of a milestone created by a recurring payment.
pub open spec fn recurring_title() -> Seq<u8> {
    seq![82u8, 101, 99, 117, 114, 114, 105, 110, 103, 32, 112, 97, 121, 109, 101, 110, 116]
}

/// Milestone recording one recurring payment, due at `due` and released at `now`.
pub open spec fn recurring_milestone(id: u32, hash: Hash32, amount: i128, due: u64, now: u64) -> MilestoneView {
    MilestoneView {
        id,
        title: recurring_title(),
        description_hash: hash,
        amount,
        status: MS_RELEASED,
        submitted_at: Some(due),
        resolved_at: Some(now),
        approvals: Seq::empty(),
        rejection_reason: None,
    }
}

/// State of a run before any payment.
pub open spec fn run_start(meta: EscrowMetaView, cfg: RecurringPaymentConfig) -> RunState {
    RunState {
        count: meta.milestone_count,
        approved: meta.approved_count,
        allocated: meta.allocated_amount,
        balance: meta.remaining_balance,
        processed: cfg.processed_payments,
        remaining: cfg.payments_remaining,
        next: cfg.next_payment_at,
        total: 0,
        steps: 0,
        times: Seq::empty(),
    }
}

/// Outcome of `process_recurring_payments`; returns the number of payments released.
pub open spec fn process_spec(s: EscrowContractView, now: u64, id: u64) -> Result<Step<u32>, EscrowError> {
    if s.admin is None {
        Err(EscrowError::NotInitialized)
    } else if s.paused {
        Err(EscrowError::ContractPaused)
    } else {
        match access_spec(s, id, now) {
            Err(e) => Err(e),
            Ok((p, rec)) => {
                let meta = rec.meta;
                if meta.status != EscrowStatus::Active {
                    Err(EscrowError::EscrowNotActive)
                } else if rec.recurring is None {
                    Err(EscrowError::RecurringConfigNotFound)
                } else if rec.recurring->0.cancelled {
                    Err(EscrowError::RecurringScheduleCancelled)
                } else if rec.recurring->0.paused {
                    Err(EscrowError::RecurringSchedulePaused)
                } else if rec.recurring->0.payments_remaining == 0 || now < rec.recurring->0.next_payment_at {
                    Err(EscrowError::NoRecurringPaymentDue)
                } else {
                    let cfg = rec.recurring->0;
                    match run_payments(run_start(meta, cfg), cfg.payment_amount, cfg.interval, cfg.end_date, now) {
                        Err(e) => Err(e),
                        Ok(fin) => {
                            let new_ms = Seq::new(fin.steps as nat, |j: int| recurring_milestone(
                                (meta.milestone_count + j) as u32, meta.brief_hash, cfg.payment_amount, fin.times[j], now,
                            ));
                            let meta2 = EscrowMetaView {
                                milestone_count: fin.count,
                                approved_count: fin.approved,
                                allocated_amount: fin.allocated,
                                remaining_balance: fin.balance,
                                status: if fin.remaining == 0 { EscrowStatus::Completed } else { meta.status },
                                ..meta
                            };
                            let cfg2 = RecurringPaymentConfig {
                                processed_payments: fin.processed,
                                payments_remaining: fin.remaining,
                                next_payment_at: fin.next,
                                last_payment_at: Some(now),
                                ..cfg
                            };
                            let rec2 = EscrowRecordView {
                                meta: meta2,
                                milestones: rec.milestones + new_ms,
                                recurring: Some(cfg2),
                                ..rec
                            };
                            Ok(Step {
                                value: fin.steps,
                                state: with_escrow(s, id, rec2),
                                transfers: rent_transfers(s, s.escrows[id], p) + Seq::new(fin.steps as nat, |j: int| Transfer {
                                    token: meta.token,
                                    from: s.contract_address,
                                    to: meta.freelancer,
                                    amount: cfg.payment_amount,
                                }),
                            })
                        },
                    }
                }
            },
        }
    }
}

/// Checks shared by the schedule controls: the pause check, rent settlement,
/// the client check, and a schedule that exists and is not cancelled.
pub open spec fn schedule_access(s: EscrowContractView, now: u64, caller: AccountId, id: u64) -> Result<(crate::escrow::RentPlan, EscrowRecordView), EscrowError> {
    if s.paused {
        Err(EscrowError::ContractPaused)
    } else {
        match access_spec(s, id, now) {
            Err(e) => Err(e),
            Ok((p, rec)) => if caller != rec.meta.client {
                Err(EscrowError::ClientOnly)
            } else if rec.recurring is None {
                Err(EscrowError::RecurringConfigNotFound)
            } else if rec.recurring->0.cancelled {
                Err(EscrowError::RecurringScheduleCancelled)
            } else {
                Ok((p, rec))
            },
        }
    }
}

/// Outcome of `pause_recurring_schedule`.
pub open spec fn pause_schedule_spec(s: EscrowContractView, now: u64, caller: AccountId, id: u64) -> Result<Step<()>, EscrowError> {
    match schedule_access(s, now, caller, id) {
        Err(e) => Err(e),
        Ok((p, rec)) => {
            let cfg = RecurringPaymentConfig { paused: true, paused_at: Some(now), ..rec.recurring->0 };
            Ok(Step {
                value: (),
                state: with_escrow(s, id, EscrowRecordView { recurring: Some(cfg), ..rec }),
                transfers: rent_transfers(s, s.escrows[id], p),
            })
        },
    }
}

/// Outcome of `resume_recurring_schedule`: a paused schedule resumes, its
/// next payment not earlier than `now`; resuming a running schedule changes nothing.
pub open spec fn resume_schedule_spec(s: EscrowContractView, now: u64, caller: AccountId, id: u64) -> Result<Step<()>, EscrowError> {
    match schedule_access(s, now, caller, id) {
        Err(e) => Err(e),
        Ok((p, rec)) => {
            let cfg = rec.recurring->0;
            let cfg2 = if !cfg.paused {
                cfg
            } else {
                RecurringPaymentConfig {
                    paused: false,
                    next_payment_at: if now >= cfg.next_payment_at { now } else { cfg.next_payment_at },
                    paused_at: None,
                    ..cfg
                }
            };
            Ok(Step {
                value: (),
                state: with_escrow(s, id, EscrowRecordView { recurring: Some(cfg2), ..rec }),
                transfers: rent_transfers(s, s.escrows[id], p),
            })
        },
    }
}

/// Outcome of `cancel_recurring_escrow`: the unreleased balance is refunded to
/// the client and the schedule ends.
pub open spec fn cancel_schedule_spec(s: EscrowContractView, now: u64, caller: AccountId, id: u64) -> Result<Step<()>, EscrowError> {
    if s.paused {
        Err(EscrowError::ContractPaused)
    } else {
        match access_spec(s, id, now) {
            Err(e) => Err(e),
            Ok((p, rec)) => if caller != rec.meta.client {
                Err(EscrowError::ClientOnly)
            } else if rec.meta.status != EscrowStatus::Active {
                Err(EscrowError::EscrowNotActive)
            } else if rec.recurring is None {
                Err(EscrowError::RecurringConfigNotFound)
            } else if rec.recurring->0.cancelled {
                Err(EscrowError::RecurringScheduleCancelled)
            } else {
                let refund = rec.meta.remaining_balance;
                let cfg = RecurringPaymentConfig {
                    cancelled: true,
                    paused: false,
                    payments_remaining: 0,
                    next_payment_at: 0,
                    ..rec.recurring->0
                };
                let meta = EscrowMetaView { remaining_balance: 0, status: EscrowStatus::Cancelled, ..rec.meta };
                Ok(Step {
                    value: (),
                    state: with_escrow(s, id, EscrowRecordView { meta, recurring: Some(cfg), ..rec }),
                    transfers: rent_transfers(s, s.escrows[id], p) + if refund > 0 {
                        seq![Transfer { token: rec.meta.token, from: s.contract_address, to: rec.meta.client, amount: refund }]
                    } else {
                        Seq::empty()
                    },
                })
            },
        }
    }
}

/// Title bytes of a milestone created by a recurring payment.
pub fn recurring_title_bytes() -> (r: Vec<u8>)
    ensures
        r@ == recurring_title(),
{
    let r = vec![82u8, 101, 99, 117, 114, 114, 105, 110, 103, 32, 112, 97, 121, 109, 101, 110, 116];
    assert(r@ =~= recurring_title());
    r
}

impl EscrowContract {
    /// The validation of a new recurring escrow (`recurring_checks`); gives
    /// the number of payments.
    pub fn new_recurring_checks(
        &self,
        now: u64,
        client: AccountId,
        freelancer: AccountId,
        payment_amount: i128,
        interval: RecurringInterval,
        start_time: u64,
        end_date: Option<u64>,
        number_of_payments: Option<u32>,
    ) -> (r: Result<u32, EscrowError>)
        ensures
            r == recurring_checks(self@, now, client, freelancer, payment_amount, interval, start_time, end_date, number_of_payments),
    {
        if self.admin.is_none() {
            return Err(EscrowError::NotInitialized);
        }
        if self.paused {
            return Err(EscrowError::ContractPaused);
        }
        if client == freelancer {
            return Err(EscrowError::Unauthorized);
        }
        if payment_amount <= 0 {
            return Err(EscrowError::InvalidMilestoneAmount);
        }
        if start_time <= now {
            return Err(EscrowError::InvalidRecurringSchedule);
        }
        let total = match Self::resolve_total_payments(start_time, interval, end_date, number_of_payments) {
            Ok(t) => t,
            Err(e) => return Err(e),
        };
        match payment_amount.checked_mul(total as i128) {
            Some(_) => Ok(total),
            None => Err(EscrowError::AmountMismatch),
        }
    }

    /// Creates an escrow that pays `payment_amount` to the freelancer at every
    /// interval from `start_time`; the client escrows all payments up front.
    pub fn create_recurring_escrow(
        &mut self,
        now: u64,
        client: AccountId,
        freelancer: AccountId,
        token: AccountId,
        payment_amount: i128,
        interval: RecurringInterval,
        start_time: u64,
        end_date: Option<u64>,
        number_of_payments: Option<u32>,
        brief_hash: Hash32,
        transfers: &mut Vec<Transfer>,
    ) -> (r: Result<u64, EscrowError>)
        requires
            old(self)@.wf(),
            recurring_checks(old(self)@, now, client, freelancer, payment_amount, interval, start_time, end_date, number_of_payments) is Ok
                ==> old(self)@.counter() < u64::MAX,
        ensures
            final(self)@.wf(),
            follows(
                r,
                create_recurring_spec(old(self)@, now, client, freelancer, token, payment_amount, interval, start_time, end_date, number_of_payments, brief_hash),
                old(self)@, final(self)@, old(transfers)@, final(transfers)@,
            ),
    {
        let total_payments = match self.new_recurring_checks(
            now, client, freelancer, payment_amount, interval, start_time, end_date, number_of_payments,
        ) {
            Ok(t) => t,
            Err(e) => return Err(e),
        };
        let total_amount = payment_amount * (total_payments as i128);
        let ghost s0 = self@;
        let id = self.next_escrow_id();
        let base_rent = ContractStorage::reserve_for_entries(1);
        transfers.push(Transfer { token, from: client, to: self.contract_address, amount: total_amount });
        if base_rent > 0 {
            transfers.push(Transfer { token, from: client, to: self.contract_address, amount: base_rent });
        }
        let mut signers: Vec<AccountId> = Vec::new();
        signers.push(client);
        let entry_rent = ContractStorage::reserve_for_entries(1);
        if entry_rent > 0 {
            transfers.push(Transfer { token, from: client, to: self.contract_address, amount: entry_rent });
        }
        let rec = EscrowRecord {
            meta: EscrowMeta {
                escrow_id: id,
                client,
                freelancer,
                token,
                total_amount,
                allocated_amount: 0,
                remaining_balance: total_amount,
                status: EscrowStatus::Active,
                milestone_count: 0,
                approved_count: 0,
                released_count: 0,
                submitted_count: 0,
                arbiter: None,
                buyer_signers: signers,
                created_at: now,
                deadline: None,
                lock_time: None,
                lock_time_extension: None,
                timelock: None,
                brief_hash,
                rent_balance: base_rent + entry_rent,
                last_rent_collection_at: now,
            },
            milestones: Vec::new(),
            recurring: Some(RecurringPaymentConfig {
                interval,
                payment_amount,
                start_time,
                next_payment_at: start_time,
                end_date,
                total_payments,
                payments_remaining: total_payments,
                processed_payments: 0,
                paused: false,
                cancelled: false,
                paused_at: None,
                last_payment_at: None,
            }),
            cancellation: None,
            slash: None,
        };
        proof {
            assert(rec@.milestones =~= Seq::<MilestoneView>::empty());
            assert(record_wf(rec@));
            lemma_with_escrow_wf(self@, id, rec@);
        }
        self.put_escrow(id, rec);
        proof {
            let o = create_recurring_spec(s0, now, client, freelancer, token, payment_amount, interval, start_time, end_date, number_of_payments, brief_hash);
            assert(o is Ok);
            assert(rec@.meta =~= o->Ok_0.state.escrows[id].meta);
            assert(o->Ok_0.state.escrows[id] =~= rec@);
            assert(self@ =~= o->Ok_0.state);
            assert(final(transfers)@ =~= old(transfers)@ + o->Ok_0.transfers);
        }
        Ok(id)
    }

    /// Releases every recurring payment due at `now`; returns how many were released.
    #[verifier::loop_isolation(false)]
    pub fn process_recurring_payments(
        &mut self,
        now: u64,
        id: u64,
        transfers: &mut Vec<Transfer>,
    ) -> (r: Result<u32, EscrowError>)
        requires
            old(self)@.wf(),
            settle_fits(old(self)@, id, now),
        ensures
            final(self)@.wf(),
            follows(r, process_spec(old(self)@, now, id), old(self)@, final(self)@, old(transfers)@, final(transfers)@),
    {
        if self.admin.is_none() {
            return Err(EscrowError::NotInitialized);
        }
        if self.paused {
            return Err(EscrowError::ContractPaused);
        }
        let p = match self.plan_rent(id, now) {
            Ok(p) => p,
            Err(e) => return Err(e),
        };
        let ghost s0 = self@;
        let rec = self.record_ref(id);
        if rec.meta.status != EscrowStatus::Active {
            return Err(EscrowError::EscrowNotActive);
        }
        let cfg = match rec.recurring {
            Some(c) => c,
            None => return Err(EscrowError::RecurringConfigNotFound),
        };
        if cfg.cancelled {
            return Err(EscrowError::RecurringScheduleCancelled);
        }
        if cfg.paused {
            return Err(EscrowError::RecurringSchedulePaused);
        }
        if cfg.payments_remaining == 0 || now < cfg.next_payment_at {
            return Err(EscrowError::NoRecurringPaymentDue);
        }
        let payment = cfg.payment_amount;
        let count0 = rec.meta.milestone_count;
        let mut count = rec.meta.milestone_count;
        let mut approved = rec.meta.approved_count;
        let mut allocated = rec.meta.allocated_amount;
        let mut balance = rec.meta.remaining_balance;
        let mut processed = cfg.processed_payments;
        let mut remaining = cfg.payments_remaining;
        let mut next = cfg.next_payment_at;
        let mut total: i128 = 0;
        let mut steps: u32 = 0;
        let mut times: Vec<u64> = Vec::new();
        let ghost start = run_start(s0.escrows[id].meta, cfg);
        let ghost r0 = cfg.payments_remaining;
        while remaining > 0 && now >= next
            invariant
                run_payments(start, payment, cfg.interval, cfg.end_date, now) == run_payments(
                    RunState { count, approved, allocated, balance, processed, remaining, next, total, steps, times: times@ },
                    payment, cfg.interval, cfg.end_date, now),
                steps + remaining <= r0,
                times@.len() == steps,
                count == count0 + steps,
            decreases remaining,
        {
            if count == u32::MAX || approved == u32::MAX {
                return Err(EscrowError::TooManyMilestones);
            }
            let new_allocated = match allocated.checked_add(payment) {
                Some(v) => v,
                None => return Err(EscrowError::AmountMismatch),
            };
            let new_balance = match balance.checked_sub(payment) {
                Some(v) => v,
                None => return Err(EscrowError::AmountMismatch),
            };
            if processed == u32::MAX {
                return Err(EscrowError::TooManyMilestones);
            }
            let new_total = match total.checked_add(payment) {
                Some(v) => v,
                None => return Err(EscrowError::AmountMismatch),
            };
            count = count + 1;
            approved = approved + 1;
            allocated = new_allocated;
            balance = new_balance;
            processed = processed + 1;
            remaining = remaining - 1;
            total = new_total;
            steps = steps + 1;
            times.push(next);
            if remaining == 0 {
                next = 0;
                break;
            }
            next = match Self::next_schedule_time(next, cfg.interval) {
                Ok(t) => t,
                Err(e) => return Err(e),
            };
            if let Some(end) = cfg.end_date {
                if next > end {
                    remaining = 0;
                    next = 0;
                    break;
                }
            }
        }
        let ghost fin = RunState { count, approved, allocated, balance, processed, remaining, next, total, steps, times: times@ };
        assert(run_payments(start, payment, cfg.interval, cfg.end_date, now) == Ok::<RunState, EscrowError>(fin));
        let brief_hash = rec.meta.brief_hash;
        let token = rec.meta.token;
        let freelancer = rec.meta.freelancer;
        let mut rec = self.take_escrow(id);
        self.apply_rent(&mut rec, p, transfers);
        let ghost t1 = transfers@;
        let ghost ms1 = rec.milestones@;
        let ghost r1 = rec@;
        let ghost new_ms = Seq::new(steps as nat, |j: int| recurring_milestone(
            (count0 + j) as u32, brief_hash, payment, times@[j], now,
        ));
        let ghost new_ts = Seq::new(steps as nat, |j: int| Transfer {
            token, from: self.contract_address, to: freelancer, amount: payment,
        });
        let mut j: u32 = 0;
        while j < steps
            invariant
                0 <= j <= steps,
                times@.len() == steps,
                count0 + steps <= u32::MAX,
                view_milestones(rec.milestones@) == view_milestones(ms1) + new_ms.take(j as int),
                rec@ == (EscrowRecordView { milestones: rec@.milestones, ..r1 }),
                transfers@ == t1 + new_ts.take(j as int),
            decreases steps - j,
        {
            let m = Milestone {
                id: count0 + j,
                title: recurring_title_bytes(),
                description_hash: brief_hash,
                amount: payment,
                status: MS_RELEASED,
                submitted_at: Some(times[j as usize]),
                resolved_at: Some(now),
                approvals: Vec::new(),
                rejection_reason: None,
            };
            let ghost before = rec.milestones@;
            rec.milestones.push(m);
            transfers.push(Transfer { token, from: self.contract_address, to: freelancer, amount: payment });
            proof {
                lemma_milestones_push(before, m);
                assert(m@ =~= new_ms[j as int]);
                assert(new_ms.take(j + 1) =~= new_ms.take(j as int).push(new_ms[j as int]));
                assert(new_ts.take(j + 1) =~= new_ts.take(j as int).push(new_ts[j as int]));
                assert(view_milestones(rec.milestones@) =~= view_milestones(ms1) + new_ms.take(j + 1));
                assert(transfers@ =~= t1 + new_ts.take(j + 1));
            }
            j = j + 1;
        }
        proof {
            assert(new_ms.take(steps as int) =~= new_ms);
            assert(new_ts.take(steps as int) =~= new_ts);
        }
        rec.meta.milestone_count = count;
        rec.meta.approved_count = approved;
        rec.meta.allocated_amount = allocated;
        rec.meta.remaining_balance = balance;
        if remaining == 0 {
            rec.meta.status = EscrowStatus::Completed;
        }
        rec.recurring = Some(RecurringPaymentConfig {
            processed_payments: processed,
            payments_remaining: remaining,
            next_payment_at: next,
            last_payment_at: Some(now),
            ..cfg
        });
        proof {
            let srec = crate::escrow::settled_record(s0.escrows[id], p);
            assert(srec.recurring == Some(cfg));
            assert(run_start(srec.meta, cfg) == start);
            let o = process_spec(s0, now, id);
            assert(o is Ok);
            assert(o->Ok_0.value == fin.steps);
            assert(rec@.meta =~= o->Ok_0.state.escrows[id].meta);
            assert(rec@.milestones =~= o->Ok_0.state.escrows[id].milestones);
            assert(rec@ == o->Ok_0.state.escrows[id]);
            lemma_take_put(s0, id, rec@);
            lemma_settled_wf(s0.escrows[id], p);
            assert(record_wf(rec@));
            lemma_with_escrow_wf(s0, id, rec@);
        }
        self.put_escrow(id, rec);
        proof {
            let o = process_spec(s0, now, id);
            assert(final(transfers)@ =~= old(transfers)@ + o->Ok_0.transfers);
        }
        Ok(steps)
    }

    /// The client pauses a schedule: no payment is released until it resumes.
    pub fn pause_recurring_schedule(
        &mut self,
        now: u64,
        caller: AccountId,
        id: u64,
        transfers: &mut Vec<Transfer>,
    ) -> (r: Result<(), EscrowError>)
        requires
            old(self)@.wf(),
            settle_fits(old(self)@, id, now),
        ensures
            final(self)@.wf(),
            follows(r, pause_schedule_spec(old(self)@, now, caller, id), old(self)@, final(self)@, old(transfers)@, final(transfers)@),
    {
        let (p, cfg) = match self.schedule_checks(now, caller, id) {
            Ok(v) => v,
            Err(e) => return Err(e),
        };
        let ghost s0 = self@;
        let mut rec = self.take_escrow(id);
        self.apply_rent(&mut rec, p, transfers);
        rec.recurring = Some(RecurringPaymentConfig { paused: true, paused_at: Some(now), ..cfg });
        proof {
            let o = pause_schedule_spec(s0, now, caller, id);
            assert(o is Ok);
            assert(rec@ == o->Ok_0.state.escrows[id]);
            lemma_take_put(s0, id, rec@);
            lemma_settled_wf(s0.escrows[id], p);
            lemma_with_escrow_wf(s0, id, rec@);
        }
        self.put_escrow(id, rec);
        Ok(())
    }

    /// The client resumes a paused schedule; the next payment falls due no
    /// earlier than `now`.
    pub fn resume_recurring_schedule(
        &mut self,
        now: u64,
        caller: AccountId,
        id: u64,
        transfers: &mut Vec<Transfer>,
    ) -> (r: Result<(), EscrowError>)
        requires
            old(self)@.wf(),
            settle_fits(old(self)@, id, now),
        ensures
            final(self)@.wf(),
            follows(r, resume_schedule_spec(old(self)@, now, caller, id), old(self)@, final(self)@, old(transfers)@, final(transfers)@),
    {
        let (p, cfg) = match self.schedule_checks(now, caller, id) {
            Ok(v) => v,
            Err(e) => return Err(e),
        };
        let ghost s0 = self@;
        let mut rec = self.take_escrow(id);
        self.apply_rent(&mut rec, p, transfers);
        if cfg.paused {
            let next = if now >= cfg.next_payment_at { now } else { cfg.next_payment_at };
            rec.recurring = Some(RecurringPaymentConfig { paused: false, next_payment_at: next, paused_at: None, ..cfg });
        }
        proof {
            let o = resume_schedule_spec(s0, now, caller, id);
            assert(o is Ok);
            assert(rec@ == o->Ok_0.state.escrows[id]);
            lemma_take_put(s0, id, rec@);
            lemma_settled_wf(s0.escrows[id], p);
            lemma_with_escrow_wf(s0, id, rec@);
        }
        self.put_escrow(id, rec);
        Ok(())
    }

    /// Checks shared by pausing and resuming a schedule; gives the rent plan and the schedule.
    fn schedule_checks(&self, now: u64, caller: AccountId, id: u64) -> (r: Result<(crate::escrow::RentPlan, RecurringPaymentConfig), EscrowError>)
        requires
            self@.wf(),
            settle_fits(self@, id, now),
        ensures
            match schedule_access(self@, now, caller, id) {
                Ok((p, rec)) => r is Ok && r->Ok_0.0 == p && Some(r->Ok_0.1) == rec.recurring
                    && self@.escrows.contains_key(id) && p.rent_balance >= 0
                    && (p.collectable > 0 ==> self@.admin is Some),
                Err(e) => r == Err::<(crate::escrow::RentPlan, RecurringPaymentConfig), EscrowError>(e),
            },
    {
        if self.paused {
            return Err(EscrowError::ContractPaused);
        }
        let p = match self.plan_rent(id, now) {
            Ok(p) => p,
            Err(e) => return Err(e),
        };
        let rec = self.record_ref(id);
        if caller != rec.meta.client {
            return Err(EscrowError::ClientOnly);
        }
        let cfg = match rec.recurring {
            Some(c) => c,
            None => return Err(EscrowError::RecurringConfigNotFound),
        };
        if cfg.cancelled {
            return Err(EscrowError::RecurringScheduleCancelled);
        }
        Ok((p, cfg))
    }

    /// The client cancels a schedule; the unreleased balance is refunded.
    pub fn cancel_recurring_escrow(
        &mut self,
        now: u64,
        caller: AccountId,
        id: u64,
        transfers: &mut Vec<Transfer>,
    ) -> (r: Result<(), EscrowError>)
        requires
            old(self)@.wf(),
            settle_fits(old(self)@, id, now),
        ensures
            final(self)@.wf(),
            follows(r, cancel_schedule_spec(old(self)@, now, caller, id), old(self)@, final(self)@, old(transfers)@, final(transfers)@),
    {
        if self.paused {
            return Err(EscrowError::ContractPaused);
        }
        let p = match self.plan_rent(id, now) {
            Ok(p) => p,
            Err(e) => return Err(e),
        };
        let ghost s0 = self@;
        let rec = self.record_ref(id);
        if caller != rec.meta.client {
            return Err(EscrowError::ClientOnly);
        }
        if rec.meta.status != EscrowStatus::Active {
            return Err(EscrowError::EscrowNotActive);
        }
        let cfg = match rec.recurring {
            Some(c) => c,
            None => return Err(EscrowError::RecurringConfigNotFound),
        };
        if cfg.cancelled {
            return Err(EscrowError::RecurringScheduleCancelled);
        }
        let refund = rec.meta.remaining_balance;
        let token = rec.meta.token;
        let client = rec.meta.client;
        let mut rec = self.take_escrow(id);
        self.apply_rent(&mut rec, p, transfers);
        if refund > 0 {
            transfers.push(Transfer { token, from: self.contract_address, to: client, amount: refund });
        }
        rec.recurring = Some(RecurringPaymentConfig {
            cancelled: true,
            paused: false,
            payments_remaining: 0,
            next_payment_at: 0,
            ..cfg
        });
        rec.meta.remaining_balance = 0;
        rec.meta.status = EscrowStatus::Cancelled;
        proof {
            let o = cancel_schedule_spec(s0, now, caller, id);
            assert(o is Ok);
            assert(rec@.meta =~= o->Ok_0.state.escrows[id].meta);
            assert(rec@ == o->Ok_0.state.escrows[id]);
            lemma_take_put(s0, id, rec@);
            lemma_settled_wf(s0.escrows[id], p);
            lemma_with_escrow_wf(s0, id, rec@);
        }
        self.put_escrow(id, rec);
        proof {
            let o = cancel_schedule_spec(s0, now, caller, id);
            assert(final(transfers)@ =~= old(transfers)@ + o->Ok_0.transfers);
        }
        Ok(())
    }
}

} // verus!
