//! Properties of the escrow contract that span its entry points.

use vstd::prelude::*;
use crate::errors::EscrowError;
use crate::constants::{MAX_ESCROW_AMOUNT, RENT_PERIOD_SECONDS};
use crate::escrow::{
    EscrowContractView, RentPlan, Step, extra_entries, per_period, record_wf, rent_transfers, settle_spec, settled_record,
    timelock_check,
    with_escrow,
};
use crate::escrow_recurring::{RunState, cancel_schedule_spec, create_recurring_spec, process_spec, run_payments, run_start};
use crate::escrow_reputation::rep_updated;
use crate::escrow_views::{collect_rent_spec, withdraw_rent_spec};
use crate::schedule::{interval_seconds, next_time_spec, payments_until, total_payments_spec};
use crate::rent::{
    balance_after_spec, collectable_spec, elapsed_periods, last_after_spec, rent_expired_spec, reserve_spec,
    trunc_div,
};
use crate::escrow_admin::{nonce_spec, pause_spec, unpause_spec, with_paused};
use crate::escrow_cancel::{cancel_escrow_spec, raise_dispute_spec};
use crate::escrow_lifecycle::create_escrow_spec;
use crate::escrow_batch::{batch_approve_spec, batch_release_spec, batch_scan};
use crate::escrow_milestones::{add_milestone_spec, approve_spec, release_spec, submit_spec};
use crate::escrow_slash::{
    execute_cancellation_spec, rep_restored, rep_slashed, request_cancellation_spec, resolve_dispute_spec,
    resolve_slash_spec,
};
use crate::schedule::slash_spec;
use crate::types::RecurringInterval;
use crate::storage::{STORAGE_VERSION, migrate_spec, version_of};
use crate::types::{
    AccountId, EscrowStatus, Hash32, MS_APPROVED, MS_PENDING, MS_REJECTED, MS_RELEASED, MS_SUBMITTED, ReputationRecord,
    Transfer,
};

verus! {

/// Sum of the amounts of a list of transfers.
pub open spec fn total_paid(ts: Seq<Transfer>) -> int
    decreases ts.len(),
{
    if ts.len() == 0 {
        0
    } else {
        total_paid(ts.drop_last()) + ts.last().amount
    }
}

/// The amounts of two lists of transfers add up.
pub proof fn lemma_total_paid_concat(a: Seq<Transfer>, b: Seq<Transfer>)
    ensures
        total_paid(a + b) == total_paid(a) + total_paid(b),
    decreases b.len(),
{
    if b.len() == 0 {
        assert(a + b =~= a);
    } else {
        lemma_total_paid_concat(a, b.drop_last());
        assert((a + b).drop_last() =~= a + b.drop_last());
    }
}

/// A single transfer pays its amount.
pub proof fn lemma_total_paid_single(t: Transfer)
    ensures
        total_paid(seq![t]) == t.amount,
{
    reveal_with_fuel(total_paid, 2);
    assert(seq![t].drop_last() =~= Seq::<Transfer>::empty());
}

/// Pausing an already paused contract changes nothing, and a pause followed
/// by an unpause gives back the contract as it was, its pause flag now written.
pub proof fn law_pause_idempotent_and_undone(s: EscrowContractView, admin: AccountId)
    requires
        s.admin == Some(admin),
    ensures
        pause_spec(s, admin) is Ok,
        pause_spec(s, admin)->Ok_0.paused,
        pause_spec(pause_spec(s, admin)->Ok_0, admin) == pause_spec(s, admin),
        !s.paused ==> unpause_spec(pause_spec(s, admin)->Ok_0, admin) == Ok::<EscrowContractView, EscrowError>(with_paused(s, false)),
        s.paused && s.pause_recorded ==> pause_spec(s, admin) == Ok::<EscrowContractView, EscrowError>(s),
{
}

/// While the contract is paused, every state-changing entry point that the
/// pause guards refuses with `ContractPaused` (the others need an initialized
/// contract first), and so leaves the state unchanged.
pub proof fn law_paused_refuses_mutation(
    s: EscrowContractView,
    now: u64,
    caller: AccountId,
    id: u64,
    mid: u32,
    client: AccountId,
    freelancer: AccountId,
    token: AccountId,
    total_amount: i128,
    brief_hash: Hash32,
    arbiter: Option<AccountId>,
    deadline: Option<u64>,
    lock_time: Option<u64>,
    signers: Seq<AccountId>,
    title: Seq<u8>,
    description_hash: Hash32,
    amount: i128,
    milestone: Option<u32>,
    reason: Seq<u8>,
)
    requires
        s.paused,
        s.admin is Some,
    ensures
        create_escrow_spec(s, now, client, freelancer, token, total_amount, brief_hash, arbiter, deadline, lock_time, signers)
            == Err::<crate::escrow::Step<u64>, EscrowError>(EscrowError::ContractPaused),
        add_milestone_spec(s, now, caller, id, title, description_hash, amount)
            == Err::<crate::escrow::Step<u32>, EscrowError>(EscrowError::ContractPaused),
        submit_spec(s, now, caller, id, mid) == Err::<crate::escrow::Step<()>, EscrowError>(EscrowError::ContractPaused),
        approve_spec(s, now, caller, id, mid) == Err::<crate::escrow::Step<()>, EscrowError>(EscrowError::ContractPaused),
        cancel_escrow_spec(s, now, caller, id) == Err::<crate::escrow::Step<()>, EscrowError>(EscrowError::ContractPaused),
        raise_dispute_spec(s, now, caller, id, milestone) == Err::<crate::escrow::Step<()>, EscrowError>(EscrowError::ContractPaused),
        request_cancellation_spec(s, now, caller, id, reason)
            == Err::<crate::escrow::Step<()>, EscrowError>(EscrowError::ContractPaused),
{
}

/// Escrow ids are handed out in sequence: a new escrow takes the counter's
/// value as its id and the counter moves one on.
pub proof fn law_escrow_ids_sequential(
    s: EscrowContractView,
    now: u64,
    client: AccountId,
    freelancer: AccountId,
    token: AccountId,
    total_amount: i128,
    brief_hash: Hash32,
    arbiter: Option<AccountId>,
    deadline: Option<u64>,
    lock_time: Option<u64>,
    signers: Seq<AccountId>,
)
    requires
        s.counter() < u64::MAX,
        create_escrow_spec(s, now, client, freelancer, token, total_amount, brief_hash, arbiter, deadline, lock_time, signers) is Ok,
    ensures
        ({
            let step = create_escrow_spec(s, now, client, freelancer, token, total_amount, brief_hash, arbiter, deadline, lock_time, signers)->Ok_0;
            &&& step.value == s.counter()
            &&& step.state.counter() == s.counter() + 1
            &&& !s.escrows.contains_key(step.value) ==> step.state.escrows.dom() == s.escrows.dom().insert(step.value)
            &&& step.state.escrows[step.value].meta.escrow_id == step.value
        }),
{
    let step = create_escrow_spec(s, now, client, freelancer, token, total_amount, brief_hash, arbiter, deadline, lock_time, signers)->Ok_0;
    if !s.escrows.contains_key(step.value) {
        assert(step.state.escrows.dom() =~= s.escrows.dom().insert(step.value));
    }
}

/// A milestone can only be added within the escrow's total: after a
/// successful `add_milestone` the amount allocated to milestones grows by the
/// milestone's amount and stays at most the escrow's total.
pub proof fn law_allocation_within_total(
    s: EscrowContractView,
    now: u64,
    caller: AccountId,
    id: u64,
    title: Seq<u8>,
    description_hash: Hash32,
    amount: i128,
)
    requires
        add_milestone_spec(s, now, caller, id, title, description_hash, amount) is Ok,
    ensures
        ({
            let after = add_milestone_spec(s, now, caller, id, title, description_hash, amount)->Ok_0.state.escrows[id].meta;
            let before = s.escrows[id].meta;
            &&& after.allocated_amount == before.allocated_amount + amount
            &&& after.allocated_amount <= after.total_amount
            &&& after.total_amount == before.total_amount
            &&& amount > 0
        }),
{
}

/// Cancelling an escrow refunds the client exactly the remaining balance and
/// leaves nothing in the escrow.
pub proof fn law_cancel_refunds_remaining(s: EscrowContractView, now: u64, caller: AccountId, id: u64)
    requires
        cancel_escrow_spec(s, now, caller, id) is Ok,
    ensures
        ({
            let step = cancel_escrow_spec(s, now, caller, id)->Ok_0;
            let m = s.escrows[id].meta;
            let p = settle_spec(s, id, now)->Ok_0;
            &&& step.transfers == rent_transfers(s, s.escrows[id], p)
                + seq![Transfer { token: m.token, from: s.contract_address, to: m.client, amount: m.remaining_balance }]
            &&& total_paid(step.transfers) == total_paid(rent_transfers(s, s.escrows[id], p)) + m.remaining_balance
            &&& step.state.escrows[id].meta.remaining_balance == 0
            &&& step.state.escrows[id].meta.status == EscrowStatus::Cancelled
        }),
{
    let m = s.escrows[id].meta;
    let p = settle_spec(s, id, now)->Ok_0;
    let t = Transfer { token: m.token, from: s.contract_address, to: m.client, amount: m.remaining_balance };
    lemma_total_paid_concat(rent_transfers(s, s.escrows[id], p), seq![t]);
    lemma_total_paid_single(t);
}

/// Resolving a dispute with non-negative shares pays out exactly the
/// remaining balance, split as asked, and completes the escrow.
pub proof fn law_resolve_splits_remaining(
    s: EscrowContractView,
    now: u64,
    caller: AccountId,
    id: u64,
    client_amount: i128,
    freelancer_amount: i128,
)
    requires
        client_amount >= 0,
        freelancer_amount >= 0,
        resolve_dispute_spec(s, now, caller, id, client_amount, freelancer_amount) is Ok,
    ensures
        ({
            let step = resolve_dispute_spec(s, now, caller, id, client_amount, freelancer_amount)->Ok_0;
            let m = s.escrows[id].meta;
            let p = settle_spec(s, id, now)->Ok_0;
            &&& client_amount + freelancer_amount == m.remaining_balance
            &&& total_paid(step.transfers) == total_paid(rent_transfers(s, s.escrows[id], p)) + m.remaining_balance
            &&& step.state.escrows[id].meta.remaining_balance == 0
            &&& step.state.escrows[id].meta.status == EscrowStatus::Completed
        }),
{
    let m = s.escrows[id].meta;
    let p = settle_spec(s, id, now)->Ok_0;
    let rent = rent_transfers(s, s.escrows[id], p);
    let tc = Transfer { token: m.token, from: s.contract_address, to: m.client, amount: client_amount };
    let tf = Transfer { token: m.token, from: s.contract_address, to: m.freelancer, amount: freelancer_amount };
    let pc: Seq<Transfer> = if client_amount > 0 { seq![tc] } else { Seq::empty() };
    let pf: Seq<Transfer> = if freelancer_amount > 0 { seq![tf] } else { Seq::empty() };
    lemma_total_paid_concat(rent + pc, pf);
    lemma_total_paid_concat(rent, pc);
    lemma_total_paid_single(tc);
    lemma_total_paid_single(tf);
    assert(total_paid(pc) == client_amount);
    assert(total_paid(pf) == freelancer_amount);
}

/// Executing a cancellation splits a non-negative remaining balance exactly
/// between the requester's refund and the slash kept for the counterparty:
/// the slash is a tenth of the balance, rounded toward zero.
pub proof fn law_cancellation_slash_split(s: EscrowContractView, now: u64, id: u64)
    requires
        s.escrows.contains_key(id),
        s.escrows[id].meta.remaining_balance >= 0,
        execute_cancellation_spec(s, now, id) is Ok,
    ensures
        ({
            let step = execute_cancellation_spec(s, now, id)->Ok_0;
            let m = s.escrows[id].meta;
            let p = settle_spec(s, id, now)->Ok_0;
            let slash = step.state.escrows[id].slash->0.amount;
            &&& step.state.escrows[id].slash is Some
            &&& slash == slash_spec(m.remaining_balance)
            &&& slash == m.remaining_balance / 10
            &&& total_paid(step.transfers) == total_paid(rent_transfers(s, s.escrows[id], p)) + (m.remaining_balance - slash)
            &&& step.state.escrows[id].meta.remaining_balance == 0
            &&& step.state.escrows[id].meta.status == EscrowStatus::Cancelled
        }),
{
    let m = s.escrows[id].meta;
    let p = settle_spec(s, id, now)->Ok_0;
    let rb = m.remaining_balance as int;
    assert((rb * 10) / 100 == rb / 10) by (nonlinear_arith)
        requires rb >= 0;
    assert(0 <= rb / 10 <= rb) by (nonlinear_arith)
        requires rb >= 0;
    let slash = slash_spec(m.remaining_balance) as i128;
    let refund = (m.remaining_balance - slash) as i128;
    let req = s.escrows[id].cancellation->0;
    let t = Transfer { token: m.token, from: s.contract_address, to: req.requester, amount: refund };
    let pr: Seq<Transfer> = if refund > 0 { seq![t] } else { Seq::empty() };
    lemma_total_paid_concat(rent_transfers(s, s.escrows[id], p), pr);
    lemma_total_paid_single(t);
}

/// Meta-transaction nonces strictly increase per signer: an accepted nonce
/// becomes the signer's last one, and the same nonce is refused afterwards.
pub proof fn law_nonce_replay_refused(s: EscrowContractView, signer: AccountId, nonce: u64)
    requires
        nonce_spec(s, signer, nonce) is Ok,
    ensures
        nonce_spec(s, signer, nonce)->Ok_0.meta_tx_nonces[signer] == nonce,
        nonce_spec(nonce_spec(s, signer, nonce)->Ok_0, signer, nonce) == Err::<EscrowContractView, EscrowError>(EscrowError::Unauthorized),
        s.meta_tx_nonces.contains_key(signer) ==> nonce > s.meta_tx_nonces[signer],
{
}

/// A migration brings the storage to the current version, and migrating
/// again changes nothing.
pub proof fn law_migration_idempotent(s: EscrowContractView)
    requires
        migrate_spec(s) is Ok,
    ensures
        version_of(migrate_spec(s)->Ok_0) == STORAGE_VERSION,
        migrate_spec(migrate_spec(s)->Ok_0) == migrate_spec(s),
{
}

/// Arithmetic of one settlement: when `e` whole periods have elapsed and the
/// reserve covers them, collecting them moves the checkpoint to the last
/// period boundary before `now`, after which no whole period has elapsed.
proof fn lemma_settlement_arith(b: int, l: int, now: int, per: int, big_p: int, e: int)
    requires
        b >= 0,
        per >= 1,
        big_p > 0,
        now > l,
        e == (now - l) / big_p,
        e <= b / per,
    ensures
        per * e <= b,
        (per * e) / per == e,
        l + e * big_p <= now,
        (now - (l + e * big_p)) / big_p == 0 || now <= l + e * big_p,
{
    assert(per * (b / per) <= b) by {
        vstd::arithmetic::div_mod::lemma_fundamental_div_mod(b, per);
    }
    assert(per * e <= per * (b / per)) by (nonlinear_arith)
        requires per >= 1, e <= b / per;
    assert((per * e) / per == e) by {
        vstd::arithmetic::div_mod::lemma_div_multiples_vanish(e, per);
    }
    vstd::arithmetic::div_mod::lemma_fundamental_div_mod(now - l, big_p);
    let r = (now - l) % big_p;
    assert(now - l == big_p * e + r);
    assert(e * big_p == big_p * e) by (nonlinear_arith);
    assert(0 <= r < big_p);
    if now > l + e * big_p {
        assert(now - (l + e * big_p) == r);
        assert(r / big_p == 0) by {
            vstd::arithmetic::div_mod::lemma_basic_div(r, big_p);
        }
    }
}

/// Accessing an escrow twice at the same time collects its rent once: once
/// settled at `now`, a second settlement at `now` collects nothing and leaves
/// the reserve and the checkpoint as they are.
pub proof fn law_settle_idempotent(s: EscrowContractView, id: u64, now: u64)
    requires
        s.wf(),
        settle_spec(s, id, now) is Ok,
    ensures
        ({
            let p = settle_spec(s, id, now)->Ok_0;
            let s1 = with_escrow(s, id, settled_record(s.escrows[id], p));
            settle_spec(s1, id, now) == Ok::<RentPlan, EscrowError>(
                RentPlan { collectable: 0, rent_balance: p.rent_balance, last_collection: p.last_collection },
            )
        }),
{
    let rec = s.escrows[id];
    let p = settle_spec(s, id, now)->Ok_0;
    let rec1 = settled_record(rec, p);
    let s1 = with_escrow(s, id, rec1);
    let per = per_period(rec);
    let b = rec.meta.rent_balance;
    let l = rec.meta.last_rent_collection_at;
    let e = elapsed_periods(l, now);
    assert(record_wf(rec));
    assert(per >= 1);
    assert(per_period(rec1) == per);
    assert(s1.escrows[id] == rec1);
    if e == 0 {
        assert(collectable_spec(b, l, now, per) == 0);
        assert(p.rent_balance == b);
        assert(p.last_collection == l);
    } else {
        assert(now > l);
        assert(e <= trunc_div(b as int, per));
        lemma_settlement_arith(b as int, l as int, now as int, per, RENT_PERIOD_SECONDS as int, e);
        assert(collectable_spec(b, l, now, per) == per * e);
        assert(p.last_collection == l + e * (RENT_PERIOD_SECONDS as int));
        assert(p.rent_balance == b - per * e);
        assert(elapsed_periods(p.last_collection, now) == 0);
    }
}

/// Collecting an escrow's rent twice at the same time collects once: when a
/// collection at `now` leaves the escrow in place, a second collection at
/// `now` collects nothing, asks for no transfer and changes nothing.
pub proof fn law_collect_rent_idempotent(s: EscrowContractView, now: u64, id: u64)
    requires
        s.wf(),
        collect_rent_spec(s, now, id) is Ok,
        collect_rent_spec(s, now, id)->Ok_0.state.escrows.contains_key(id),
    ensures
        ({
            let s1 = collect_rent_spec(s, now, id)->Ok_0.state;
            collect_rent_spec(s1, now, id) == Ok::<Step<i128>, EscrowError>(
                Step { value: 0, state: s1, transfers: Seq::empty() },
            )
        }),
{
    let rec = s.escrows[id];
    let per = per_period(rec);
    let b = rec.meta.rent_balance;
    let bi: int = b as int;
    let l = rec.meta.last_rent_collection_at;
    let e = elapsed_periods(l, now);
    let big_p = RENT_PERIOD_SECONDS as int;
    assert(record_wf(rec));
    assert(per >= 1);
    let c = collectable_spec(b, l, now, per);
    let nb = balance_after_spec(b, l, now, per) as i128;
    let nl = last_after_spec(b, l, now, per) as u64;
    let p = RentPlan { collectable: c as i128, rent_balance: nb, last_collection: nl };
    assert(!rent_expired_spec(nb, nl, now, per));
    let rec1 = settled_record(rec, p);
    let s1 = with_escrow(s, id, rec1);
    assert(collect_rent_spec(s, now, id)->Ok_0.state == s1);
    if e > 0 {
        assert(now > l);
        if per * e > b {
            // The reserve does not cover the periods due: it is emptied, and
            // the escrow would have expired.
            assert(per * (bi / per) <= b) by {
                vstd::arithmetic::div_mod::lemma_fundamental_div_mod(bi, per);
            }
            assert(bi / per < e) by (nonlinear_arith)
                requires per * (bi / per) <= bi, per * e > bi, per >= 1;
            assert(c == b);
            assert(nl == l + (bi / per) * big_p);
            vstd::arithmetic::div_mod::lemma_fundamental_div_mod(now - l, big_p);
            assert((now - l) >= e * big_p) by (nonlinear_arith)
                requires now - l == big_p * ((now - l) / big_p) + (now - l) % big_p,
                    (now - l) % big_p >= 0, e == (now - l) / big_p;
            assert(now - nl >= big_p) by (nonlinear_arith)
                requires now - l >= e * big_p, nl == l + (bi / per) * big_p, bi / per <= e - 1, big_p > 0;
            assert((now - nl) / big_p >= 1) by {
                vstd::arithmetic::div_mod::lemma_div_is_ordered(big_p, now - nl, big_p);
                vstd::arithmetic::div_mod::lemma_div_by_self(big_p);
            }
            assert(nb == 0);
            assert(rent_expired_spec(nb, nl, now, per));
            assert(false);
        }
        assert(e <= bi / per) by {
            vstd::arithmetic::div_mod::lemma_div_is_ordered(per * e, bi, per);
            vstd::arithmetic::div_mod::lemma_div_multiples_vanish(e, per);
        }
        lemma_settlement_arith(b as int, l as int, now as int, per, big_p, e);
        assert(c == per * e);
        assert(nl == l + e * big_p);
        assert(elapsed_periods(nl, now) == 0);
    } else {
        assert(c == 0);
        assert(nl == l);
    }
    assert(elapsed_periods(nl, now) == 0);
    assert(s1.escrows[id] == rec1);
    assert(per_period(rec1) == per);
    let p2 = RentPlan { collectable: 0, rent_balance: nb, last_collection: nl };
    assert(settled_record(rec1, p2) == rec1);
    assert(rent_transfers(s1, rec1, p2) == Seq::<Transfer>::empty());
    assert(with_escrow(s1, id, rec1) =~= s1) by {
        assert(s1.escrows.insert(id, rec1) =~= s1.escrows);
    }
}

/// A milestone is paid once, and only by the admin: only an approved
/// milestone is released, by the admin alone; it is then marked released,
/// and releasing it again is refused.
pub proof fn law_no_double_release(s: EscrowContractView, now: u64, caller: AccountId, id: u64, mid: u32, now2: u64, caller2: AccountId)
    requires
        s.wf(),
        release_spec(s, now, caller, id, mid) is Ok,
    ensures
        s.admin == Some(caller),
        s.escrows[id].milestones[mid as int].status == MS_APPROVED,
        release_spec(s, now, caller, id, mid)->Ok_0.state.escrows[id].milestones[mid as int].status == MS_RELEASED,
        release_spec(release_spec(s, now, caller, id, mid)->Ok_0.state, now2, caller2, id, mid) is Err,
        caller2 == caller ==> release_spec(release_spec(s, now, caller, id, mid)->Ok_0.state, now2, caller2, id, mid)
            == Err::<crate::escrow::Step<()>, EscrowError>(EscrowError::InvalidMilestoneState),
{
    let rec = s.escrows[id];
    assert(record_wf(rec));
    let s1 = release_spec(s, now, caller, id, mid)->Ok_0.state;
    assert(s1.escrows.contains_key(id));
    assert(s1.escrows[id].milestones.len() == rec.milestones.len());
}

/// A milestone already paid to the freelancer (marked released, as every
/// approval that pays, batch release and recurring payment leaves it) is
/// never released again.
pub proof fn law_paid_milestone_not_released(s: EscrowContractView, now: u64, caller: AccountId, id: u64, mid: u32)
    requires
        s.escrows.contains_key(id),
        (mid as int) < s.escrows[id].milestones.len(),
        s.escrows[id].milestones[mid as int].status == MS_RELEASED,
    ensures
        release_spec(s, now, caller, id, mid) is Err,
{
}

/// A dispute freezes the escrow's approvals: while it is disputed, neither a
/// milestone approval (single or batched) nor a cancellation pays anything out.
pub proof fn law_dispute_freezes_approvals(s: EscrowContractView, now: u64, caller: AccountId, id: u64, mid: u32, ids: Seq<u32>)
    requires
        s.escrows.contains_key(id),
        s.escrows[id].meta.status == EscrowStatus::Disputed,
    ensures
        approve_spec(s, now, caller, id, mid) is Err,
        batch_approve_spec(s, now, caller, id, ids) is Err,
        cancel_escrow_spec(s, now, caller, id) is Err,
{
}

/// Collected rent is what `rent_transfers` pays.
proof fn lemma_rent_paid(s: EscrowContractView, rec: crate::escrow::EscrowRecordView, p: RentPlan)
    requires
        p.collectable >= 0,
    ensures
        total_paid(rent_transfers(s, rec, p)) == p.collectable,
{
    reveal_with_fuel(total_paid, 2);
    if p.collectable > 0 {
        lemma_total_paid_single(rent_transfers(s, rec, p)[0]);
        assert(rent_transfers(s, rec, p) =~= seq![rent_transfers(s, rec, p)[0]]);
    }
}

/// When collecting rent expires an escrow, nothing it held is left behind:
/// the rent collected and the refund to the client add up to its remaining
/// balance plus its whole reserve, and the escrow is gone. Otherwise the
/// escrow stays, with only the rent collected paid out.
pub proof fn law_expiry_returns_everything(s: EscrowContractView, now: u64, id: u64)
    requires
        s.wf(),
        s.escrows.contains_key(id),
        s.escrows[id].meta.remaining_balance >= 0,
        collect_rent_spec(s, now, id) is Ok,
    ensures
        ({
            let step = collect_rent_spec(s, now, id)->Ok_0;
            let m = s.escrows[id].meta;
            &&& !step.state.escrows.contains_key(id)
                ==> total_paid(step.transfers) == m.remaining_balance + m.rent_balance
            &&& step.state.escrows.contains_key(id) ==> total_paid(step.transfers) == step.value
            &&& step.value >= 0
        }),
{
    let rec = s.escrows[id];
    assert(record_wf(rec));
    let per = per_period(rec);
    let b = rec.meta.rent_balance;
    let l = rec.meta.last_rent_collection_at;
    let c = collectable_spec(b, l, now, per);
    let nb = balance_after_spec(b, l, now, per) as i128;
    let nl = last_after_spec(b, l, now, per) as u64;
    let p = RentPlan { collectable: c as i128, rent_balance: nb, last_collection: nl };
    assert(per >= 1);
    let e = elapsed_periods(l, now);
    assert(e >= 0);
    assert(per * e >= 0) by (nonlinear_arith)
        requires per >= 1, e >= 0;
    assert(0 <= c <= b);
    lemma_rent_paid(s, rec, p);
    let step = collect_rent_spec(s, now, id)->Ok_0;
    if rent_expired_spec(nb, nl, now, per) {
        let refund = rec.meta.remaining_balance + nb;
        let t = Transfer { token: rec.meta.token, from: s.contract_address, to: rec.meta.client, amount: refund as i128 };
        let tail: Seq<Transfer> = if refund > 0 { seq![t] } else { Seq::empty() };
        lemma_total_paid_concat(rent_transfers(s, rec, p), tail);
        lemma_total_paid_single(t);
        assert(!step.state.escrows.contains_key(id));
    } else {
        assert(step.state.escrows.contains_key(id));
    }
}

/// Reversing a slash undoes it: the reputation of an account that had at
/// least 10 points is as before the slash (but for the time of the update),
/// and the reversal pays the slashed amount back to the slashed account.
/// Upholding it lets the slash stand: the held amount goes to its recipient.
pub proof fn law_slash_reversal_restores(
    r: ReputationRecord,
    amount: i128,
    t: u64,
    s: EscrowContractView,
    now: u64,
    caller: AccountId,
    id: u64,
)
    requires
        r.total_score >= 10,
        r.slash_count < u32::MAX,
        i128::MIN <= r.total_slashed + amount <= i128::MAX,
    ensures
        rep_restored(rep_slashed(r, amount, t), amount) == (ReputationRecord { last_updated: t, ..r }),
        resolve_slash_spec(s, now, caller, id, false) is Ok ==> {
            let step = resolve_slash_spec(s, now, caller, id, false)->Ok_0;
            let sr = s.escrows[id].slash->0;
            &&& step.transfers.last() == Transfer {
                token: s.escrows[id].meta.token,
                from: s.contract_address,
                to: sr.slashed_user,
                amount: sr.amount,
            }
            &&& step.state.escrows[id].slash is None
        },
        resolve_slash_spec(s, now, caller, id, true) is Ok ==> {
            let step = resolve_slash_spec(s, now, caller, id, true)->Ok_0;
            let sr = s.escrows[id].slash->0;
            &&& step.transfers.last() == Transfer {
                token: s.escrows[id].meta.token,
                from: s.contract_address,
                to: sr.recipient,
                amount: sr.amount,
            }
            &&& step.state.escrows[id].slash is None
        },
{
}

/// A run of recurring payments stops only when the schedule is exhausted or
/// the next payment is not yet due; along the way each payment adds
/// `payment` to the total released.
proof fn lemma_run_stops(st: RunState, payment: i128, interval: RecurringInterval, end_date: Option<u64>, now: u64)
    requires
        run_payments(st, payment, interval, end_date, now) is Ok,
        st.steps <= st.processed,
    ensures
        ({
            let fin = run_payments(st, payment, interval, end_date, now)->Ok_0;
            &&& fin.remaining == 0 || now < fin.next
            &&& fin.steps >= st.steps
            &&& fin.total == st.total + (fin.steps - st.steps) * payment
        }),
    decreases st.remaining,
{
    if st.remaining == 0 || now < st.next {
    } else {
        let s1 = RunState {
            count: (st.count + 1) as u32,
            approved: (st.approved + 1) as u32,
            allocated: (st.allocated + payment) as i128,
            balance: (st.balance - payment) as i128,
            processed: (st.processed + 1) as u32,
            remaining: (st.remaining - 1) as u32,
            total: (st.total + payment) as i128,
            steps: (st.steps + 1) as u32,
            times: st.times.push(st.next),
            ..st
        };
        let fin = run_payments(st, payment, interval, end_date, now)->Ok_0;
        assert(s1.steps == st.steps + 1);
        assert(s1.total == st.total + payment);
        if s1.remaining == 0 {
            assert(fin == RunState { next: 0, ..s1 });
            assert(fin.total == st.total + 1 * payment);
        } else {
            let n2 = next_time_spec(st.next, interval)->Ok_0;
            if end_date is Some && n2 > end_date->0 {
                assert(fin == RunState { remaining: 0, next: 0, ..s1 });
                assert(fin.total == st.total + 1 * payment);
            } else {
                let s2 = RunState { next: n2, ..s1 };
                assert(fin == run_payments(s2, payment, interval, end_date, now)->Ok_0);
                lemma_run_stops(s2, payment, interval, end_date, now);
                let k = fin.steps - s1.steps;
                assert(s1.total + k * payment == st.total + (k + 1) * payment) by (nonlinear_arith)
                    requires s1.total == st.total + payment;
            }
        }
    }
}

/// Recurring payments are released once: after processing the payments due
/// at `now`, processing again at `now` releases nothing; each payment
/// released paid the schedule's payment amount to the freelancer and is
/// recorded as a released milestone, so no release pays it again.
pub proof fn law_recurring_released_once(s: EscrowContractView, now: u64, id: u64)
    requires
        process_spec(s, now, id) is Ok,
    ensures
        process_spec(process_spec(s, now, id)->Ok_0.state, now, id) is Err,
        ({
            let step = process_spec(s, now, id)->Ok_0;
            let cfg = s.escrows[id].recurring->0;
            let p = settle_spec(s, id, now)->Ok_0;
            &&& step.transfers.len() == rent_transfers(s, s.escrows[id], p).len() + step.value
            &&& forall|k: int| s.escrows[id].milestones.len() <= k < step.state.escrows[id].milestones.len()
                ==> (#[trigger] step.state.escrows[id].milestones[k]).status == MS_RELEASED
            &&& forall|j: int| rent_transfers(s, s.escrows[id], p).len() <= j < step.transfers.len() ==> {
                &&& (#[trigger] step.transfers[j]).amount == cfg.payment_amount
                &&& step.transfers[j].to == s.escrows[id].meta.freelancer
            }
        }),
{
    let rec = settled_record(s.escrows[id], settle_spec(s, id, now)->Ok_0);
    let cfg = rec.recurring->0;
    let st = run_start(rec.meta, cfg);
    lemma_run_stops(st, cfg.payment_amount, cfg.interval, cfg.end_date, now);
}

/// Cancelling a recurring schedule refunds the client every payment not yet
/// released: the whole remaining balance, after which nothing is left.
pub proof fn law_cancel_schedule_refunds_remaining(s: EscrowContractView, now: u64, caller: AccountId, id: u64)
    requires
        s.escrows.contains_key(id),
        s.escrows[id].meta.remaining_balance >= 0,
        cancel_schedule_spec(s, now, caller, id) is Ok,
    ensures
        ({
            let step = cancel_schedule_spec(s, now, caller, id)->Ok_0;
            let m = s.escrows[id].meta;
            let p = settle_spec(s, id, now)->Ok_0;
            &&& total_paid(step.transfers) == total_paid(rent_transfers(s, s.escrows[id], p)) + m.remaining_balance
            &&& step.state.escrows[id].meta.remaining_balance == 0
            &&& step.state.escrows[id].recurring->0.cancelled
            &&& step.state.escrows[id].recurring->0.payments_remaining == 0
        }),
{
    let m = s.escrows[id].meta;
    let p = settle_spec(s, id, now)->Ok_0;
    let t = Transfer { token: m.token, from: s.contract_address, to: m.client, amount: m.remaining_balance };
    let tail: Seq<Transfer> = if m.remaining_balance > 0 { seq![t] } else { Seq::empty() };
    lemma_total_paid_concat(rent_transfers(s, s.escrows[id], p), tail);
    lemma_total_paid_single(t);
}

/// Reputation scoring: a completed escrow earns 10 points plus one per 1000
/// units of volume, at most 20 in all; a disputed one costs 5 points, never
/// going below zero.
pub proof fn law_reputation_scoring(r: ReputationRecord, volume: i128, now: u64)
    requires
        volume >= 0,
        r.total_score + 20 <= u64::MAX,
        r.completed_escrows < u32::MAX,
        r.disputed_escrows < u32::MAX,
    ensures
        rep_updated(r, true, false, volume, now).total_score
            == r.total_score + 10 + (if volume / 1000 <= 10 { volume / 1000 } else { 10 }),
        rep_updated(r, true, false, volume, now).completed_escrows == r.completed_escrows + 1,
        rep_updated(r, false, true, volume, now).total_score == (if r.total_score >= 5 { r.total_score - 5 } else { 0 }),
        rep_updated(r, false, true, volume, now).disputed_escrows == r.disputed_escrows + 1,
{
}

/// Withdrawing surplus rent never takes the reserve below what the escrow's
/// entries need for a full reserve period.
pub proof fn law_withdrawal_keeps_minimum_reserve(s: EscrowContractView, now: u64, caller: AccountId, id: u64, amount: i128)
    requires
        withdraw_rent_spec(s, now, caller, id, amount) is Ok,
    ensures
        ({
            let rec = withdraw_rent_spec(s, now, caller, id, amount)->Ok_0.state.escrows[id];
            &&& rec.meta.rent_balance >= reserve_spec(1 + rec.meta.milestone_count + extra_entries(rec))
            &&& amount > 0
        }),
{
}

/// What an approval or a release pays out of an escrow is exactly what its
/// remaining balance goes down by, and it goes to the freelancer.
pub proof fn law_payout_matches_balance_drop(s: EscrowContractView, now: u64, caller: AccountId, id: u64, mid: u32)
    ensures
        approve_spec(s, now, caller, id, mid) is Ok ==> {
            let step = approve_spec(s, now, caller, id, mid)->Ok_0;
            let p = settle_spec(s, id, now)->Ok_0;
            let rent = rent_transfers(s, s.escrows[id], p);
            &&& total_paid(step.transfers) == total_paid(rent)
                + (s.escrows[id].meta.remaining_balance - step.state.escrows[id].meta.remaining_balance)
            &&& forall|j: int| rent.len() <= j < step.transfers.len()
                ==> (#[trigger] step.transfers[j]).to == s.escrows[id].meta.freelancer
        },
        release_spec(s, now, caller, id, mid) is Ok ==> {
            let step = release_spec(s, now, caller, id, mid)->Ok_0;
            let p = settle_spec(s, id, now)->Ok_0;
            let rent = rent_transfers(s, s.escrows[id], p);
            &&& total_paid(step.transfers) == total_paid(rent)
                + (s.escrows[id].meta.remaining_balance - step.state.escrows[id].meta.remaining_balance)
            &&& forall|j: int| rent.len() <= j < step.transfers.len()
                ==> (#[trigger] step.transfers[j]).to == s.escrows[id].meta.freelancer
        },
{
    if approve_spec(s, now, caller, id, mid) is Ok {
        let m = s.escrows[id].meta;
        let p = settle_spec(s, id, now)->Ok_0;
        let ms = settled_record(s.escrows[id], p).milestones[mid as int];
        let t = Transfer { token: m.token, from: s.contract_address, to: m.freelancer, amount: ms.amount };
        let release = timelock_check(m.timelock, now) is Ok;
        let tail: Seq<Transfer> = if release { seq![t] } else { Seq::empty() };
        lemma_total_paid_concat(rent_transfers(s, s.escrows[id], p), tail);
        lemma_total_paid_single(t);
    }
    if release_spec(s, now, caller, id, mid) is Ok {
        let m = s.escrows[id].meta;
        let p = settle_spec(s, id, now)->Ok_0;
        let ms = settled_record(s.escrows[id], p).milestones[mid as int];
        let t = Transfer { token: m.token, from: s.contract_address, to: m.freelancer, amount: ms.amount };
        lemma_total_paid_concat(rent_transfers(s, s.escrows[id], p), seq![t]);
        lemma_total_paid_single(t);
    }
}

/// A batch that validates names each milestone once.
proof fn lemma_scan_distinct(ms: Seq<crate::escrow::MilestoneView>, ids: Seq<u32>, required: u32, n: int)
    requires
        0 <= n <= ids.len(),
        batch_scan(ms, ids, required, n) is Ok,
    ensures
        forall|i: int, j: int| 0 <= i < j < n ==> ids[i] != ids[j],
    decreases n,
{
    if n > 0 {
        lemma_scan_distinct(ms, ids, required, n - 1);
        assert forall|i: int, j: int| 0 <= i < j < n implies ids[i] != ids[j] by {
            if j == n - 1 {
                assert(ids.take(n - 1)[i] == ids[i]);
            }
        }
    }
}

/// A batch approval or release pays each milestone at most once: it succeeds
/// only when no milestone is listed twice, and then counts each once.
pub proof fn law_batch_counts_each_milestone_once(s: EscrowContractView, now: u64, caller: AccountId, id: u64, ids: Seq<u32>)
    ensures
        batch_approve_spec(s, now, caller, id, ids) is Ok ==> {
            &&& forall|i: int, j: int| 0 <= i < j < ids.len() ==> ids[i] != ids[j]
            &&& batch_approve_spec(s, now, caller, id, ids)->Ok_0.state.escrows[id].meta.approved_count
                == s.escrows[id].meta.approved_count + ids.len()
        },
        batch_release_spec(s, now, caller, id, ids) is Ok ==> {
            &&& forall|i: int, j: int| 0 <= i < j < ids.len() ==> ids[i] != ids[j]
            &&& batch_release_spec(s, now, caller, id, ids)->Ok_0.state.escrows[id].meta.released_count
                == s.escrows[id].meta.released_count + ids.len()
        },
{
    if batch_approve_spec(s, now, caller, id, ids) is Ok {
        let rec = settled_record(s.escrows[id], settle_spec(s, id, now)->Ok_0);
        lemma_scan_distinct(rec.milestones, ids, MS_SUBMITTED, ids.len() as int);
    }
    if batch_release_spec(s, now, caller, id, ids) is Ok {
        let rec = settled_record(s.escrows[id], settle_spec(s, id, now)->Ok_0);
        lemma_scan_distinct(rec.milestones, ids, MS_APPROVED, ids.len() as int);
    }
}

/// Approving a submitted milestone moves it out of the submitted count and
/// into the approved count.
pub proof fn law_approval_updates_counts(s: EscrowContractView, now: u64, caller: AccountId, id: u64, mid: u32)
    requires
        approve_spec(s, now, caller, id, mid) is Ok,
        s.escrows[id].meta.submitted_count > 0,
    ensures
        ({
            let m1 = approve_spec(s, now, caller, id, mid)->Ok_0.state.escrows[id].meta;
            let m0 = s.escrows[id].meta;
            &&& m1.submitted_count == m0.submitted_count - 1
            &&& m1.approved_count == m0.approved_count + 1
            &&& s.escrows[id].milestones[mid as int].status == MS_SUBMITTED
        }),
{
}

/// Payments due at `now` on a schedule without end date: every whole
/// interval elapsed since the next due time adds one, up to what remains.
pub open spec fn payments_due(remaining: u32, next: u64, now: u64, interval: RecurringInterval) -> int {
    if now < next {
        0
    } else {
        let q = (now - next) / interval_seconds(interval) + 1;
        if remaining <= q { remaining as int } else { q }
    }
}

/// Closed form of a run of payments without end date: it releases exactly
/// `payments_due` payments.
proof fn lemma_run_closed_form(st: RunState, payment: i128, interval: RecurringInterval, now: u64)
    requires
        run_payments(st, payment, interval, None, now) is Ok,
        st.steps <= st.processed,
    ensures
        ({
            let fin = run_payments(st, payment, interval, None, now)->Ok_0;
            let k = payments_due(st.remaining, st.next, now, interval);
            &&& fin.steps - st.steps == k
            &&& fin.remaining == st.remaining - k
            &&& fin.processed == st.processed + k
            &&& fin.remaining > 0 ==> fin.next == st.next + k * interval_seconds(interval)
            &&& fin.remaining == 0 && k > 0 ==> fin.next == 0
        }),
    decreases st.remaining,
{
    let secs = interval_seconds(interval);
    if st.remaining == 0 || now < st.next {
    } else {
        let s1 = RunState {
            count: (st.count + 1) as u32,
            approved: (st.approved + 1) as u32,
            allocated: (st.allocated + payment) as i128,
            balance: (st.balance - payment) as i128,
            processed: (st.processed + 1) as u32,
            remaining: (st.remaining - 1) as u32,
            total: (st.total + payment) as i128,
            steps: (st.steps + 1) as u32,
            times: st.times.push(st.next),
            ..st
        };
        let fin = run_payments(st, payment, interval, None, now)->Ok_0;
        let d = now - st.next;
        assert(d / secs >= 0) by (nonlinear_arith)
            requires d >= 0, secs > 0;
        if s1.remaining == 0 {
            assert(fin == RunState { next: 0, ..s1 });
        } else {
            let n2 = next_time_spec(st.next, interval)->Ok_0;
            assert(n2 == st.next + secs);
            let s2 = RunState { next: n2, ..s1 };
            assert(fin == run_payments(s2, payment, interval, None, now)->Ok_0);
            lemma_run_closed_form(s2, payment, interval, now);
            let k2 = payments_due(s2.remaining, s2.next, now, interval);
            assert(n2 + k2 * secs == st.next + (k2 + 1) * secs) by (nonlinear_arith)
                requires n2 == st.next + secs;
            if now < n2 {
                assert(d / secs == 0) by {
                    vstd::arithmetic::div_mod::lemma_basic_div(d, secs);
                }
            } else {
                assert((d - secs) / secs == d / secs - 1) by {
                    vstd::arithmetic::div_mod::lemma_div_minus_one(d, secs);
                }
            }
        }
    }
}

/// Catching up a schedule without end date: processing at `now` releases one
/// payment for the due time and one for each whole interval elapsed since,
/// up to the payments that remain; the schedule then counts them as
/// processed, and its next due time moves on by as many intervals (or is
/// cleared once nothing remains).
pub proof fn law_recurring_catch_up(s: EscrowContractView, now: u64, id: u64)
    requires
        process_spec(s, now, id) is Ok,
        s.escrows[id].recurring->0.end_date is None,
    ensures
        ({
            let cfg = s.escrows[id].recurring->0;
            let k = payments_due(cfg.payments_remaining, cfg.next_payment_at, now, cfg.interval);
            let after = process_spec(s, now, id)->Ok_0.state.escrows[id].recurring->0;
            &&& process_spec(s, now, id)->Ok_0.value == k
            &&& k >= 1
            &&& after.payments_remaining == cfg.payments_remaining - k
            &&& after.processed_payments == cfg.processed_payments + k
            &&& after.payments_remaining > 0
                ==> after.next_payment_at == cfg.next_payment_at + k * interval_seconds(cfg.interval)
            &&& after.payments_remaining == 0 ==> after.next_payment_at == 0
        }),
{
    let rec = settled_record(s.escrows[id], settle_spec(s, id, now)->Ok_0);
    let cfg = rec.recurring->0;
    lemma_run_closed_form(run_start(rec.meta, cfg), cfg.payment_amount, cfg.interval, now);
}

/// Due times a schedule reaches by `now`, counted from `next`: the first due
/// time, and one more for each whole interval up to `now` or, when it comes
/// earlier, up to the end date.
pub open spec fn due_times(next: u64, now: u64, end_date: Option<u64>, interval: RecurringInterval) -> int {
    let secs = interval_seconds(interval);
    if now < next {
        0
    } else if end_date is Some && end_date->0 < now {
        if end_date->0 < next { 1 } else { (end_date->0 - next) / secs + 1 }
    } else {
        (now - next) / secs + 1
    }
}

/// Payments released by processing at `now`: the due times reached, at most
/// the payments that remain.
pub open spec fn payments_released(remaining: u32, next: u64, now: u64, end_date: Option<u64>, interval: RecurringInterval) -> int {
    let q = due_times(next, now, end_date, interval);
    if remaining <= q { remaining as int } else { q }
}

/// After `k` payments from `next`, the schedule is over: nothing remains, or
/// the following due time lies past the end date.
pub open spec fn schedule_over(remaining: u32, next: u64, k: int, end_date: Option<u64>, interval: RecurringInterval) -> bool {
    ||| remaining - k <= 0
    ||| (end_date is Some && next + k * interval_seconds(interval) > end_date->0)
}

/// Closed form of a run of payments, with or without end date.
#[verifier::spinoff_prover]
#[verifier::rlimit(40)]
proof fn lemma_run_closed_form_until(st: RunState, payment: i128, interval: RecurringInterval, end_date: Option<u64>, now: u64)
    requires
        run_payments(st, payment, interval, end_date, now) is Ok,
        st.steps <= st.processed,
    ensures
        ({
            let fin = run_payments(st, payment, interval, end_date, now)->Ok_0;
            let k = payments_released(st.remaining, st.next, now, end_date, interval);
            &&& fin.steps - st.steps == k
            &&& fin.processed == st.processed + k
            &&& fin.balance == st.balance - k * payment
            &&& k == 0 ==> fin == st
            &&& k > 0 ==> fin.remaining == (if schedule_over(st.remaining, st.next, k, end_date, interval) { 0 } else { st.remaining - k })
            &&& k > 0 ==> fin.next == (if schedule_over(st.remaining, st.next, k, end_date, interval) { 0 } else { st.next + k * interval_seconds(interval) })
        }),
    decreases st.remaining,
{
    let secs = interval_seconds(interval);
    if st.remaining == 0 || now < st.next {
    } else {
        let s1 = RunState {
            count: (st.count + 1) as u32,
            approved: (st.approved + 1) as u32,
            allocated: (st.allocated + payment) as i128,
            balance: (st.balance - payment) as i128,
            processed: (st.processed + 1) as u32,
            remaining: (st.remaining - 1) as u32,
            total: (st.total + payment) as i128,
            steps: (st.steps + 1) as u32,
            times: st.times.push(st.next),
            ..st
        };
        let fin = run_payments(st, payment, interval, end_date, now)->Ok_0;
        let q = due_times(st.next, now, end_date, interval);
        let d = now - st.next;
        assert(d / secs >= 0) by (nonlinear_arith)
            requires d >= 0, secs > 0;
        assert(q >= 1) by {
            if end_date is Some && end_date->0 < now && end_date->0 >= st.next {
                assert((end_date->0 - st.next) / secs >= 0) by (nonlinear_arith)
                    requires end_date->0 - st.next >= 0, secs > 0;
            }
        }
        if s1.remaining == 0 {
            assert(fin == RunState { next: 0, ..s1 });
            assert(payments_released(st.remaining, st.next, now, end_date, interval) == 1);
            assert(st.balance - 1 * payment == s1.balance);
        } else {
            let n2 = next_time_spec(st.next, interval)->Ok_0;
            assert(n2 == st.next + secs);
            if end_date is Some && n2 > end_date->0 {
                assert(fin == RunState { remaining: 0, next: 0, ..s1 });
                let e = end_date->0;
                assert(q == 1) by {
                    if e < now {
                        if e >= st.next {
                            assert((e - st.next) / secs == 0) by {
                                vstd::arithmetic::div_mod::lemma_basic_div(e - st.next, secs);
                            }
                        }
                    } else {
                        assert(d / secs == 0) by {
                            vstd::arithmetic::div_mod::lemma_basic_div(d, secs);
                        }
                    }
                }
                assert(st.next + 1 * secs == n2);
                assert(st.balance - 1 * payment == s1.balance);
                assert(payments_released(st.remaining, st.next, now, end_date, interval) == 1);
                assert(schedule_over(st.remaining, st.next, 1, end_date, interval));
            } else {
                let s2 = RunState { next: n2, ..s1 };
                assert(fin == run_payments(s2, payment, interval, end_date, now)->Ok_0);
                lemma_run_closed_form_until(s2, payment, interval, end_date, now);
                let q2 = due_times(n2, now, end_date, interval);
                let k2 = payments_released(s2.remaining, n2, now, end_date, interval);
                if now < n2 {
                    assert(d / secs == 0) by {
                        vstd::arithmetic::div_mod::lemma_basic_div(d, secs);
                    }
                    assert(q == 1);
                    assert(k2 == 0);
                    assert(fin == s2);
                    assert(payments_released(st.remaining, st.next, now, end_date, interval) == 1);
                    assert(st.next + 1 * secs == n2);
                    assert(st.balance - 1 * payment == s1.balance);
                    assert(!schedule_over(st.remaining, st.next, 1, end_date, interval));
                } else {
                    if end_date is Some && end_date->0 < now {
                        let e = end_date->0;
                        assert(e >= n2);
                        assert((e - st.next - secs) / secs == (e - st.next) / secs - 1) by {
                            vstd::arithmetic::div_mod::lemma_div_minus_one(e - st.next, secs);
                        }
                        assert(q2 == q - 1);
                    } else {
                        assert((d - secs) / secs == d / secs - 1) by {
                            vstd::arithmetic::div_mod::lemma_div_minus_one(d, secs);
                        }
                        assert(q2 == q - 1);
                    }
                    assert(k2 >= 1);
                    assert(n2 + k2 * secs == st.next + (k2 + 1) * secs) by (nonlinear_arith)
                        requires n2 == st.next + secs;
                    assert(s1.balance - k2 * payment == st.balance - (k2 + 1) * payment) by (nonlinear_arith)
                        requires s1.balance == st.balance - payment;
                    assert(payments_released(st.remaining, st.next, now, end_date, interval) == k2 + 1);
                    assert(schedule_over(st.remaining, st.next, k2 + 1, end_date, interval)
                        == schedule_over(s2.remaining, n2, k2, end_date, interval));
                }
            }
        }
    }
}

/// Catching up a recurring schedule releases every payment that has fallen
/// due: one for the due time and one for each whole interval elapsed since,
/// counting only due times up to the end date when there is one, and at most
/// the payments that remain. The schedule counts them as processed; it is over
/// (nothing remains, no next due time, the escrow completed) when the
/// payments ran out or the following due time lies past the end date, and
/// otherwise its next due time moves on by as many intervals.
pub proof fn law_recurring_releases_every_due_payment(s: EscrowContractView, now: u64, id: u64)
    requires
        process_spec(s, now, id) is Ok,
    ensures
        ({
            let cfg = s.escrows[id].recurring->0;
            let k = payments_released(cfg.payments_remaining, cfg.next_payment_at, now, cfg.end_date, cfg.interval);
            let over = schedule_over(cfg.payments_remaining, cfg.next_payment_at, k, cfg.end_date, cfg.interval);
            let after = process_spec(s, now, id)->Ok_0.state.escrows[id];
            &&& process_spec(s, now, id)->Ok_0.value == k
            &&& k >= 1
            &&& after.recurring->0.processed_payments == cfg.processed_payments + k
            &&& after.recurring->0.payments_remaining == (if over { 0 } else { cfg.payments_remaining - k })
            &&& after.recurring->0.next_payment_at
                == (if over { 0 } else { cfg.next_payment_at + k * interval_seconds(cfg.interval) })
            &&& after.meta.status == (if over { EscrowStatus::Completed } else { s.escrows[id].meta.status })
            &&& after.meta.remaining_balance == s.escrows[id].meta.remaining_balance - k * cfg.payment_amount
        }),
{
    let rec = settled_record(s.escrows[id], settle_spec(s, id, now)->Ok_0);
    let cfg = rec.recurring->0;
    let st = run_start(rec.meta, cfg);
    lemma_run_closed_form_until(st, cfg.payment_amount, cfg.interval, cfg.end_date, now);
}

/// Sum of the amounts of the milestones named in `ids`.
pub open spec fn listed_amounts(ms: Seq<crate::escrow::MilestoneView>, ids: Seq<u32>) -> int
    decreases ids.len(),
{
    if ids.len() == 0 {
        0
    } else {
        listed_amounts(ms, ids.drop_last()) + ms[ids.last() as int].amount
    }
}

/// The total a batch validation gives is the sum of the listed amounts.
proof fn lemma_scan_total(ms: Seq<crate::escrow::MilestoneView>, ids: Seq<u32>, required: u32, n: int)
    requires
        0 <= n <= ids.len(),
        batch_scan(ms, ids, required, n) is Ok,
    ensures
        batch_scan(ms, ids, required, n)->Ok_0 == listed_amounts(ms, ids.take(n)),
    decreases n,
{
    if n > 0 {
        lemma_scan_total(ms, ids, required, n - 1);
        assert(ids.take(n).drop_last() =~= ids.take(n - 1));
        assert(ids.take(n).last() == ids[n - 1]);
    }
}

/// A batch pays the freelancer the sum of the amounts of the milestones it
/// lists, in one transfer after the rent due: a batch release always, a batch
/// approval when no timelock holds the funds (and the sum is positive). The
/// escrow's remaining balance drops by what is paid, and the escrow is
/// completed exactly when every milestone is then released.
pub proof fn law_batch_pays_the_listed_amounts(s: EscrowContractView, now: u64, caller: AccountId, id: u64, ids: Seq<u32>)
    ensures
        batch_release_spec(s, now, caller, id, ids) is Ok ==> {
            let step = batch_release_spec(s, now, caller, id, ids)->Ok_0;
            let m0 = s.escrows[id].meta;
            let m1 = step.state.escrows[id].meta;
            let sum = listed_amounts(s.escrows[id].milestones, ids);
            let rent = rent_transfers(s, s.escrows[id], settle_spec(s, id, now)->Ok_0);
            &&& step.value == sum
            &&& step.transfers == rent + seq![Transfer { token: m0.token, from: s.contract_address, to: m0.freelancer, amount: sum as i128 }]
            &&& total_paid(step.transfers) == total_paid(rent) + sum
            &&& m1.remaining_balance == m0.remaining_balance - sum
            &&& m1.released_count == m0.released_count + ids.len()
            &&& m1.status == (if m1.released_count == m0.milestone_count && m0.milestone_count > 0 {
                    EscrowStatus::Completed
                } else {
                    m0.status
                })
        },
        batch_approve_spec(s, now, caller, id, ids) is Ok ==> {
            let step = batch_approve_spec(s, now, caller, id, ids)->Ok_0;
            let m0 = s.escrows[id].meta;
            let m1 = step.state.escrows[id].meta;
            let sum = listed_amounts(s.escrows[id].milestones, ids);
            let rent = rent_transfers(s, s.escrows[id], settle_spec(s, id, now)->Ok_0);
            let pay = timelock_check(m0.timelock, now) is Ok && sum > 0;
            &&& step.value == sum
            &&& step.transfers == rent + if pay {
                    seq![Transfer { token: m0.token, from: s.contract_address, to: m0.freelancer, amount: sum as i128 }]
                } else {
                    Seq::<Transfer>::empty()
                }
            &&& total_paid(step.transfers) == total_paid(rent) + (if pay { sum } else { 0 })
            &&& m1.remaining_balance == m0.remaining_balance - (if pay { sum } else { 0 })
            &&& m1.approved_count == m0.approved_count + ids.len()
            &&& m1.status == (if m1.released_count == m0.milestone_count && m0.milestone_count > 0 {
                    EscrowStatus::Completed
                } else {
                    m0.status
                })
        },
{
    if batch_release_spec(s, now, caller, id, ids) is Ok {
        let p = settle_spec(s, id, now)->Ok_0;
        let rec = settled_record(s.escrows[id], p);
        lemma_scan_total(rec.milestones, ids, MS_APPROVED, ids.len() as int);
        assert(ids.take(ids.len() as int) =~= ids);
        let m0 = s.escrows[id].meta;
        let sum = listed_amounts(s.escrows[id].milestones, ids);
        let t = Transfer { token: m0.token, from: s.contract_address, to: m0.freelancer, amount: sum as i128 };
        lemma_total_paid_concat(rent_transfers(s, s.escrows[id], p), seq![t]);
        lemma_total_paid_single(t);
    }
    if batch_approve_spec(s, now, caller, id, ids) is Ok {
        let p = settle_spec(s, id, now)->Ok_0;
        let rec = settled_record(s.escrows[id], p);
        lemma_scan_total(rec.milestones, ids, MS_SUBMITTED, ids.len() as int);
        assert(ids.take(ids.len() as int) =~= ids);
        let m0 = s.escrows[id].meta;
        let sum = listed_amounts(s.escrows[id].milestones, ids);
        let t = Transfer { token: m0.token, from: s.contract_address, to: m0.freelancer, amount: sum as i128 };
        let pay = timelock_check(m0.timelock, now) is Ok && sum > 0;
        let tail: Seq<Transfer> = if pay { seq![t] } else { Seq::empty() };
        lemma_total_paid_concat(rent_transfers(s, s.escrows[id], p), tail);
        lemma_total_paid_single(t);
        assert(total_paid(Seq::<Transfer>::empty()) == 0);
    }
}

/// Releasing a milestone pays its amount to the freelancer, moves it to
/// released, and completes the escrow exactly when it was the last milestone
/// left to release; otherwise the escrow keeps its status.
pub proof fn law_release_completes_only_when_all_released(s: EscrowContractView, now: u64, caller: AccountId, id: u64, mid: u32)
    requires
        release_spec(s, now, caller, id, mid) is Ok,
    ensures
        ({
            let step = release_spec(s, now, caller, id, mid)->Ok_0;
            let m0 = s.escrows[id].meta;
            let after = step.state.escrows[id];
            let amount = s.escrows[id].milestones[mid as int].amount;
            &&& caller == s.admin->0
            &&& s.escrows[id].milestones[mid as int].status == MS_APPROVED
            &&& after.milestones[mid as int].status == MS_RELEASED
            &&& after.meta.released_count == m0.released_count + 1
            &&& after.meta.milestone_count == m0.milestone_count
            &&& after.meta.remaining_balance == m0.remaining_balance - amount
            &&& step.transfers.last() == Transfer { token: m0.token, from: s.contract_address, to: m0.freelancer, amount }
            &&& after.meta.status == (if m0.released_count + 1 == m0.milestone_count && m0.milestone_count > 0 {
                    EscrowStatus::Completed
                } else {
                    m0.status
                })
        }),
{
}

/// Approving a submitted milestone counts it as approved; when no timelock
/// holds the funds it also pays its amount to the freelancer and counts it as
/// released. The escrow is completed exactly when every milestone is then
/// both approved and released; otherwise it keeps its status.
pub proof fn law_approve_completes_only_when_all_released(s: EscrowContractView, now: u64, caller: AccountId, id: u64, mid: u32)
    requires
        approve_spec(s, now, caller, id, mid) is Ok,
    ensures
        ({
            let step = approve_spec(s, now, caller, id, mid)->Ok_0;
            let m0 = s.escrows[id].meta;
            let after = step.state.escrows[id];
            let amount = s.escrows[id].milestones[mid as int].amount;
            let release = timelock_check(m0.timelock, now) is Ok;
            &&& s.escrows[id].milestones[mid as int].status == MS_SUBMITTED
            &&& after.milestones[mid as int].status == (if release { MS_RELEASED } else { MS_APPROVED })
            &&& after.meta.approved_count == m0.approved_count + 1
            &&& after.meta.released_count == m0.released_count + (if release { 1int } else { 0 })
            &&& after.meta.remaining_balance == m0.remaining_balance - (if release { amount } else { 0 })
            &&& after.meta.status == (if after.meta.approved_count == m0.milestone_count
                    && after.meta.released_count == m0.milestone_count && m0.milestone_count > 0 {
                    EscrowStatus::Completed
                } else {
                    m0.status
                })
        }),
{
}

/// A cancellation succeeds only for the client of an active escrow with no
/// milestone submitted and none approved but unpaid; it refunds the client
/// the whole remaining balance and leaves the escrow cancelled and empty.
/// With work submitted or approved and unpaid, the client's cancellation is
/// refused as pending funds.
pub proof fn law_cancel_only_without_pending_work(s: EscrowContractView, now: u64, caller: AccountId, id: u64)
    ensures
        cancel_escrow_spec(s, now, caller, id) is Ok ==> {
            let step = cancel_escrow_spec(s, now, caller, id)->Ok_0;
            let m0 = s.escrows[id].meta;
            &&& caller == m0.client
            &&& m0.status == EscrowStatus::Active
            &&& m0.submitted_count == 0
            &&& m0.approved_count <= m0.released_count
            &&& step.state.escrows[id].meta.status == EscrowStatus::Cancelled
            &&& step.state.escrows[id].meta.remaining_balance == 0
            &&& step.transfers.last() == Transfer { token: m0.token, from: s.contract_address, to: m0.client, amount: m0.remaining_balance }
        },
        ({
            let m0 = s.escrows[id].meta;
            &&& !s.paused
            &&& settle_spec(s, id, now) is Ok
            &&& caller == m0.client
            &&& m0.status == EscrowStatus::Active
            &&& (m0.submitted_count > 0 || m0.approved_count > m0.released_count)
        }) ==> cancel_escrow_spec(s, now, caller, id) == Err::<Step<()>, EscrowError>(EscrowError::CannotCancelWithPendingFunds),
{
}

/// A recurring escrow schedules the payments whose due times, from the start
/// time on at each interval, fall on or before the end date, all of them
/// when no count is given and at most the count otherwise (exactly the count
/// without end date); its client escrows every one of them up front.
pub proof fn law_recurring_schedule_covers_the_end_date(
    s: EscrowContractView,
    now: u64,
    client: AccountId,
    freelancer: AccountId,
    token: AccountId,
    payment_amount: i128,
    interval: RecurringInterval,
    start_time: u64,
    end_date: Option<u64>,
    number_of_payments: Option<u32>,
    brief_hash: Hash32,
)
    ensures
        create_recurring_spec(s, now, client, freelancer, token, payment_amount, interval, start_time, end_date,
            number_of_payments, brief_hash) is Ok ==> {
            let step = create_recurring_spec(s, now, client, freelancer, token, payment_amount, interval, start_time,
                end_date, number_of_payments, brief_hash)->Ok_0;
            let rec = step.state.escrows[step.value];
            let cfg = rec.recurring->0;
            let n = cfg.total_payments as int;
            let secs = interval_seconds(interval);
            &&& n >= 1
            &&& cfg.payments_remaining == cfg.total_payments
            &&& cfg.processed_payments == 0
            &&& cfg.next_payment_at == start_time
            &&& rec.meta.total_amount == payment_amount * n
            &&& step.transfers[0] == Transfer { token, from: client, to: s.contract_address, amount: (payment_amount * n) as i128 }
            &&& (end_date is Some ==> start_time + (n - 1) * secs <= end_date->0)
            &&& (end_date is Some && number_of_payments is None ==> start_time + n * secs > end_date->0)
            &&& (number_of_payments is Some ==> n <= number_of_payments->0)
            &&& (end_date is Some && number_of_payments is Some ==>
                    n == number_of_payments->0 || start_time + n * secs > end_date->0)
            &&& (end_date is None ==> n == number_of_payments->0)
        },
{
    if create_recurring_spec(s, now, client, freelancer, token, payment_amount, interval, start_time, end_date,
        number_of_payments, brief_hash) is Ok {
        let secs = interval_seconds(interval);
        if end_date is Some {
            let e = end_date->0;
            assert(payments_until(start_time, e, interval) is Ok);
            let q = (e - start_time) / secs;
            vstd::arithmetic::div_mod::lemma_fundamental_div_mod(e - start_time, secs);
            let r = (e - start_time) % secs;
            assert(start_time + q * secs <= e) by (nonlinear_arith)
                requires e - start_time == secs * q + r, r >= 0;
            assert(start_time + (q + 1) * secs > e) by (nonlinear_arith)
                requires e - start_time == secs * q + r, r < secs;
            let t = total_payments_spec(start_time, interval, end_date, number_of_payments)->Ok_0 as int;
            assert(t <= q + 1);
            assert(start_time + (t - 1) * secs <= start_time + q * secs) by (nonlinear_arith)
                requires t <= q + 1, secs > 0;
        }
    }
}

/// Creating an escrow takes the whole amount from the client into the
/// contract, first of its transfers, and records an active escrow under the
/// next id holding exactly that amount, with nothing allocated yet. It is
/// refused unless the parties differ, the arbiter is neither of them, the
/// amount is positive and within the maximum, the deadline and lock time lie
/// ahead, and the token is not a registered wrapped token left unapproved.
pub proof fn law_create_escrow_locks_the_amount(
    s: EscrowContractView,
    now: u64,
    client: AccountId,
    freelancer: AccountId,
    token: AccountId,
    total_amount: i128,
    brief_hash: Hash32,
    arbiter: Option<AccountId>,
    deadline: Option<u64>,
    lock_time: Option<u64>,
    signers: Seq<AccountId>,
)
    ensures
        create_escrow_spec(s, now, client, freelancer, token, total_amount, brief_hash, arbiter, deadline, lock_time, signers)
            is Ok ==> {
            let step = create_escrow_spec(s, now, client, freelancer, token, total_amount, brief_hash, arbiter, deadline,
                lock_time, signers)->Ok_0;
            let m = step.state.escrows[step.value].meta;
            &&& s.admin is Some && !s.paused
            &&& client != freelancer
            &&& (arbiter is Some ==> arbiter->0 != client && arbiter->0 != freelancer)
            &&& 0 < total_amount <= MAX_ESCROW_AMOUNT
            &&& (deadline is Some ==> deadline->0 > now)
            &&& (lock_time is Some ==> lock_time->0 > now)
            &&& (s.wrapped_tokens.contains_key(token) ==> s.wrapped_tokens[token].is_approved)
            &&& step.value == s.counter()
            &&& !s.escrows.contains_key(step.value) ==> step.state.escrows.dom() == s.escrows.dom().insert(step.value)
            &&& step.transfers[0] == Transfer { token, from: client, to: s.contract_address, amount: total_amount }
            &&& m.client == client && m.freelancer == freelancer && m.token == token
            &&& m.total_amount == total_amount && m.remaining_balance == total_amount
            &&& m.allocated_amount == 0 && m.milestone_count == 0
            &&& m.status == EscrowStatus::Active
            &&& step.state.escrows[step.value].milestones.len() == 0
        },
{
    if create_escrow_spec(s, now, client, freelancer, token, total_amount, brief_hash, arbiter, deadline, lock_time, signers)
        is Ok {
        let id = s.counter();
        let step = create_escrow_spec(s, now, client, freelancer, token, total_amount, brief_hash, arbiter, deadline,
            lock_time, signers)->Ok_0;
        assert(step.state.escrows.dom() =~= s.escrows.dom().insert(id));
    }
}

/// Submitting hands a pending or rejected milestone in for review: only the
/// freelancer may, the milestone becomes submitted and counts as submitted,
/// and no funds move beyond the rent due.
pub proof fn law_submit_hands_in_work(s: EscrowContractView, now: u64, caller: AccountId, id: u64, mid: u32)
    requires
        submit_spec(s, now, caller, id, mid) is Ok,
    ensures
        ({
            let step = submit_spec(s, now, caller, id, mid)->Ok_0;
            let m0 = s.escrows[id].meta;
            let after = step.state.escrows[id];
            let before = s.escrows[id].milestones[mid as int].status;
            &&& caller == m0.freelancer
            &&& before == MS_PENDING || before == MS_REJECTED
            &&& after.milestones[mid as int].status == MS_SUBMITTED
            &&& after.milestones[mid as int].amount == s.escrows[id].milestones[mid as int].amount
            &&& after.meta.submitted_count == m0.submitted_count + 1
            &&& after.meta.remaining_balance == m0.remaining_balance
            &&& after.meta.status == m0.status
            &&& step.transfers == rent_transfers(s, s.escrows[id], settle_spec(s, id, now)->Ok_0)
        }),
{
}

/// Collecting rent takes what the whole periods elapsed since the last
/// collection owe at the escrow's rate per period, but never more than its
/// reserve, and pays it to the admin; when the escrow stays, its reserve
/// drops by exactly that amount.
pub proof fn law_rent_collects_the_elapsed_periods(s: EscrowContractView, now: u64, id: u64)
    requires
        s.wf(),
        collect_rent_spec(s, now, id) is Ok,
    ensures
        ({
            let step = collect_rent_spec(s, now, id)->Ok_0;
            let m = s.escrows[id].meta;
            let per = per_period(s.escrows[id]);
            let e = if now <= m.last_rent_collection_at { 0 } else {
                (now - m.last_rent_collection_at) / (RENT_PERIOD_SECONDS as int)
            };
            let owed = if per * e <= m.rent_balance { per * e } else { m.rent_balance as int };
            &&& step.value == owed
            &&& owed > 0 ==> step.transfers[0] == Transfer {
                    token: m.token, from: s.contract_address, to: s.admin->0, amount: owed as i128 }
            &&& step.state.escrows.contains_key(id) ==>
                    step.state.escrows[id].meta.rent_balance == m.rent_balance - owed
        }),
{
    let rec = s.escrows[id];
    assert(record_wf(rec));
    let per = per_period(rec);
    let e = elapsed_periods(rec.meta.last_rent_collection_at, now);
    assert(per * 0 == 0);
    if e > 0 {
        assert(per * e > 0) by (nonlinear_arith)
            requires per >= 1, e > 0;
    }
}

} // verus!
