use std::collections::HashMap;

use escrow_contract::constants::{CANCELLATION_DISPUTE_PERIOD, RENT_PERIOD_SECONDS};
use escrow_contract::errors::EscrowError;
use escrow_contract::escrow::EscrowContract;
use escrow_contract::storage::StorageManager;
use escrow_contract::types::{EscrowStatus, MultisigConfig, RecurringInterval, Transfer, WrappedTokenInfo, MS_RELEASED};

const ADMIN: u64 = 1;
const CONTRACT: u64 = 1_000;
const CLIENT: u64 = 2;
const FREELANCER: u64 = 3;
const ARBITER: u64 = 4;
const TOKEN: u64 = 50;

/// Contract, token ledger and clock.
struct World {
    now: u64,
    c: EscrowContract,
    balances: HashMap<(u64, u64), i128>,
}

impl World {
    fn new() -> World {
        let mut c = EscrowContract::new(CONTRACT);
        c.initialize(ADMIN).unwrap();
        let mut w = World { now: 0, c, balances: HashMap::new() };
        w.balances.insert((TOKEN, CLIENT), 10_000);
        w.balances.insert((TOKEN, FREELANCER), 10_000);
        w
    }

    fn balance(&self, who: u64) -> i128 {
        *self.balances.get(&(TOKEN, who)).unwrap_or(&0)
    }

    fn call<T>(
        &mut self,
        f: impl FnOnce(&mut EscrowContract, u64, &mut Vec<Transfer>) -> Result<T, EscrowError>,
    ) -> (Result<T, EscrowError>, Vec<Transfer>) {
        let mut ts: Vec<Transfer> = Vec::new();
        let r = f(&mut self.c, self.now, &mut ts);
        for t in &ts {
            let from = self.balances.entry((t.token, t.from)).or_insert(0);
            assert!(*from >= t.amount);
            *from -= t.amount;
            *self.balances.entry((t.token, t.to)).or_insert(0) += t.amount;
        }
        (r, ts)
    }

    fn escrow(&mut self, amount: i128, arbiter: Option<u64>) -> u64 {
        let multisig = MultisigConfig { approvers: Vec::new(), weights: Vec::new(), threshold: 0 };
        self.call(|c, now, ts| c.create_escrow(now, CLIENT, FREELANCER, TOKEN, amount, [1; 32], arbiter, None, None, None, multisig, ts))
            .0
            .unwrap()
    }
}

fn paid(ts: &[Transfer]) -> i128 {
    ts.iter().map(|t| t.amount).sum()
}

#[test]
fn settling_twice_at_the_same_time_collects_once() {
    let mut w = World::new();
    let id = w.escrow(1_000, None);
    w.now = 3 * RENT_PERIOD_SECONDS + 7;
    assert_eq!(w.call(|c, now, ts| c.collect_rent(now, id, ts)).0, Ok(3));
    assert_eq!(w.call(|c, now, ts| c.collect_rent(now, id, ts)).0, Ok(0));
    assert_eq!(w.balance(ADMIN), 3);
}

#[test]
fn cancel_refunds_exactly_the_remaining_balance() {
    let mut w = World::new();
    let id = w.escrow(400, None);
    let before = w.balance(CLIENT);
    let (r, ts) = w.call(|c, now, ts| c.cancel_escrow(now, CLIENT, id, ts));
    assert_eq!(r, Ok(()));
    assert_eq!(paid(&ts), 400);
    assert_eq!(w.balance(CLIENT), before + 400);
    assert_eq!(w.c.stored_meta(id).unwrap().remaining_balance, 0);
}

#[test]
fn dispute_resolution_pays_out_the_whole_balance() {
    let mut w = World::new();
    let id = w.escrow(300, Some(ARBITER));
    w.call(|c, now, ts| c.raise_dispute(now, CLIENT, id, None, ts)).0.unwrap();
    assert_eq!(w.call(|c, now, ts| c.resolve_dispute(now, ARBITER, id, 100, 150, ts)).0, Err(EscrowError::AmountMismatch));
    let (r, ts) = w.call(|c, now, ts| c.resolve_dispute(now, ARBITER, id, 100, 200, ts));
    assert_eq!(r, Ok(()));
    assert_eq!(paid(&ts), 300);
    let meta = w.c.stored_meta(id).unwrap();
    assert_eq!(meta.remaining_balance, 0);
    assert_eq!(meta.status, EscrowStatus::Completed);
    let rep = w.c.get_reputation(w.now, CLIENT).unwrap();
    assert_eq!(rep.disputed_escrows, 1);
}

#[test]
fn cancellation_splits_refund_and_slash() {
    let mut w = World::new();
    let id = w.escrow(205, None);
    w.call(|c, now, ts| c.request_cancellation(now, CLIENT, id, b"stop".to_vec(), ts)).0.unwrap();
    w.now += CANCELLATION_DISPUTE_PERIOD;
    let (r, ts) = w.call(|c, now, ts| c.execute_cancellation(now, id, ts));
    assert_eq!(r, Ok(()));
    // 205 / 10 = 20 slashed; 185 refunded (the rent of the elapsed period goes to the admin)
    let refund: i128 = ts.iter().filter(|t| t.to == CLIENT).map(|t| t.amount).sum();
    assert_eq!(refund, 185);
    let slash = w.call(|c, now, ts| c.get_slash_record(now, id, ts)).0.unwrap();
    assert_eq!(slash.amount, 20);
    assert_eq!(slash.recipient, FREELANCER);
}

#[test]
fn approved_milestone_is_released_once() {
    let mut w = World::new();
    let id = w.escrow(500, None);
    let mid = w.call(|c, now, ts| c.add_milestone(now, CLIENT, id, b"A".to_vec(), [2; 32], 200, ts)).0.unwrap();
    w.call(|c, now, ts| c.start_timelock(now, CLIENT, id, 86_400, ts)).0.unwrap();
    w.call(|c, now, ts| c.submit_milestone(now, FREELANCER, id, mid, ts)).0.unwrap();
    w.call(|c, now, ts| c.approve_milestone(now, CLIENT, id, mid, ts)).0.unwrap();
    let (r, ts) = w.call(|c, now, ts| c.release_funds(now, ADMIN, id, mid, ts));
    assert_eq!(r, Ok(()));
    assert_eq!(paid(&ts), 200);
    let m = w.call(|c, now, ts| c.get_milestone(now, id, mid, ts)).0.unwrap();
    assert_eq!(m.status, MS_RELEASED);
    assert_eq!(w.call(|c, now, ts| c.release_funds(now, ADMIN, id, mid, ts)).0, Err(EscrowError::InvalidMilestoneState));
}

#[test]
fn dispute_blocks_approval_and_cancellation() {
    let mut w = World::new();
    let id = w.escrow(500, None);
    let mid = w.call(|c, now, ts| c.add_milestone(now, CLIENT, id, b"A".to_vec(), [2; 32], 200, ts)).0.unwrap();
    w.call(|c, now, ts| c.submit_milestone(now, FREELANCER, id, mid, ts)).0.unwrap();
    w.call(|c, now, ts| c.raise_dispute(now, FREELANCER, id, None, ts)).0.unwrap();
    assert_eq!(w.call(|c, now, ts| c.approve_milestone(now, CLIENT, id, mid, ts)).0, Err(EscrowError::EscrowNotActive));
    assert!(w.call(|c, now, ts| c.batch_approve_milestones(now, CLIENT, id, vec![mid], ts)).0.is_err());
    assert!(w.call(|c, now, ts| c.cancel_escrow(now, CLIENT, id, ts)).0.is_err());
}

#[test]
fn allocation_never_exceeds_the_total() {
    let mut w = World::new();
    let id = w.escrow(500, None);
    w.call(|c, now, ts| c.add_milestone(now, CLIENT, id, b"A".to_vec(), [2; 32], 300, ts)).0.unwrap();
    assert_eq!(
        w.call(|c, now, ts| c.add_milestone(now, CLIENT, id, b"B".to_vec(), [2; 32], 201, ts)).0,
        Err(EscrowError::MilestoneAmountExceedsEscrow)
    );
    assert_eq!(w.call(|c, now, ts| c.add_milestone(now, CLIENT, id, b"B".to_vec(), [2; 32], 200, ts)).0, Ok(1));
    assert_eq!(w.c.stored_meta(id).unwrap().allocated_amount, 500);
}

#[test]
fn escrow_ids_are_sequential() {
    let mut w = World::new();
    assert_eq!(w.escrow(100, None), 0);
    assert_eq!(w.escrow(100, None), 1);
    assert_eq!(w.c.escrow_count(), 2);
}

#[test]
fn nonce_must_increase() {
    let mut w = World::new();
    assert_eq!(w.c.validate_and_update_nonce(9, 0), Err(EscrowError::Unauthorized));
    assert_eq!(w.c.validate_and_update_nonce(9, 5), Ok(()));
    assert_eq!(w.c.validate_and_update_nonce(9, 5), Err(EscrowError::Unauthorized));
    assert_eq!(w.c.validate_and_update_nonce(9, 4), Err(EscrowError::Unauthorized));
    assert_eq!(w.c.validate_and_update_nonce(9, 6), Ok(()));
}

#[test]
fn migration_twice_changes_nothing() {
    let mut w = World::new();
    assert_eq!(StorageManager::migrate(&mut w.c), Ok(()));
    assert_eq!(StorageManager::migrate(&mut w.c), Ok(()));
    assert!(!StorageManager::needs_migration(&w.c));
}

#[test]
fn recurring_payments_are_released_once() {
    let mut w = World::new();
    let id = w
        .call(|c, now, ts| c.create_recurring_escrow(now, CLIENT, FREELANCER, TOKEN, 100, RecurringInterval::Daily, 10, None, Some(4), [5; 32], ts))
        .0
        .unwrap();
    w.now = 10 + 86_400;
    assert_eq!(w.call(|c, now, ts| c.process_recurring_payments(now, id, ts)).0, Ok(2));
    assert_eq!(w.call(|c, now, ts| c.process_recurring_payments(now, id, ts)).0, Err(EscrowError::NoRecurringPaymentDue));
}

#[test]
fn expiry_returns_everything_the_escrow_held() {
    let mut w = World::new();
    let id = w.escrow(700, None);
    let client_before = w.balance(CLIENT);
    w.now = 40 * RENT_PERIOD_SECONDS;
    let (r, ts) = w.call(|c, now, ts| c.collect_rent(now, id, ts));
    assert_eq!(r, Ok(30));
    // 700 escrowed plus a 30-unit reserve: 30 of rent to the admin, 700 back to the client
    assert_eq!(paid(&ts), 730);
    assert_eq!(w.balance(CLIENT), client_before + 700);
    assert!(w.c.stored_meta(id).is_none());
}

#[test]
fn paused_contract_refuses_mutations_and_keeps_state() {
    let mut w = World::new();
    let id = w.escrow(100, None);
    w.c.pause(ADMIN).unwrap();
    let before = w.c.stored_meta(id).unwrap().remaining_balance;
    assert_eq!(w.call(|c, now, ts| c.cancel_escrow(now, CLIENT, id, ts)).0, Err(EscrowError::ContractPaused));
    assert_eq!(w.call(|c, now, ts| c.raise_dispute(now, CLIENT, id, None, ts)).0, Err(EscrowError::ContractPaused));
    assert_eq!(w.c.stored_meta(id).unwrap().remaining_balance, before);
    w.c.pause(ADMIN).unwrap();
    w.c.unpause(ADMIN).unwrap();
    assert!(!w.c.is_paused());
    assert_eq!(w.call(|c, now, ts| c.cancel_escrow(now, CLIENT, id, ts)).0, Ok(()));
}

#[test]
fn errors_name_their_cause() {
    let mut w = World::new();
    assert_eq!(w.c.initialize(ADMIN), Err(EscrowError::AlreadyInitialized));
    let multisig = || MultisigConfig { approvers: Vec::new(), weights: Vec::new(), threshold: 0 };
    assert_eq!(
        w.call(|c, now, ts| c.create_escrow(now, CLIENT, CLIENT, TOKEN, 10, [0; 32], None, None, None, None, multisig(), ts)).0,
        Err(EscrowError::Unauthorized)
    );
    assert_eq!(
        w.call(|c, now, ts| c.create_escrow(now, CLIENT, FREELANCER, TOKEN, 0, [0; 32], None, None, None, None, multisig(), ts)).0,
        Err(EscrowError::InvalidEscrowAmount)
    );
    w.now = 100;
    assert_eq!(
        w.call(|c, now, ts| c.create_escrow(now, CLIENT, FREELANCER, TOKEN, 10, [0; 32], None, Some(100), None, None, multisig(), ts)).0,
        Err(EscrowError::InvalidDeadline)
    );
    assert_eq!(
        w.call(|c, now, ts| c.create_escrow(now, CLIENT, FREELANCER, TOKEN, 10, [0; 32], None, None, Some(50), None, multisig(), ts)).0,
        Err(EscrowError::InvalidLockTime)
    );
    assert_eq!(w.call(|c, now, ts| c.get_escrow(now, 77, ts)).0.err(), Some(EscrowError::EscrowNotFound));
    let id = w.escrow(100, None);
    assert_eq!(w.call(|c, now, ts| c.cancel_escrow(now, FREELANCER, id, ts)).0, Err(EscrowError::ClientOnly));
    assert_eq!(
        w.call(|c, now, ts| c.add_milestone(now, CLIENT, id, b"x".to_vec(), [0; 32], 0, ts)).0,
        Err(EscrowError::InvalidMilestoneAmount)
    );
    assert_eq!(w.c.set_max_milestones(CLIENT, 5), Err(EscrowError::AdminOnly));
    assert_eq!(w.c.set_max_milestones(ADMIN, 0), Err(EscrowError::InvalidMilestoneAmount));
    assert_eq!(w.call(|c, now, ts| c.finalize_slash(now, id, ts)).0, Err(EscrowError::SlashNotFound));
    assert_eq!(w.call(|c, now, ts| c.execute_cancellation(now, id, ts)).0, Err(EscrowError::CancellationNotFound));
}

#[test]
fn reputation_scores_completion_and_disputes() {
    let mut w = World::new();
    let now = w.now;
    w.c.update_reputation(now, 7, true, false, 4_500).unwrap();
    assert_eq!(w.c.get_reputation(now, 7).unwrap().total_score, 14);
    w.c.update_reputation(now, 7, true, false, 1_000_000).unwrap();
    assert_eq!(w.c.get_reputation(now, 7).unwrap().total_score, 34);
    w.c.update_reputation(now, 8, false, true, 0).unwrap();
    let r = w.c.get_reputation(now, 8).unwrap();
    assert_eq!(r.total_score, 0);
    assert_eq!(r.disputed_escrows, 1);
}

#[test]
fn rent_withdrawal_keeps_the_minimum_reserve() {
    let mut w = World::new();
    let id = w.escrow(100, None);
    assert_eq!(w.call(|c, now, ts| c.withdraw_rent_overpayment(now, CLIENT, id, 1, ts)).0, Err(EscrowError::InvalidEscrowAmount));
    assert_eq!(w.call(|c, now, ts| c.top_up_rent(now, CLIENT, id, 5, ts)).0, Ok(5));
    assert_eq!(w.call(|c, now, ts| c.withdraw_rent_overpayment(now, CLIENT, id, 6, ts)).0, Err(EscrowError::InvalidEscrowAmount));
    assert_eq!(w.call(|c, now, ts| c.withdraw_rent_overpayment(now, FREELANCER, id, 5, ts)).0, Err(EscrowError::ClientOnly));
    assert_eq!(w.call(|c, now, ts| c.withdraw_rent_overpayment(now, CLIENT, id, 5, ts)).0, Ok(()));
    assert_eq!(w.c.stored_meta(id).unwrap().rent_balance, 30);
}

#[test]
fn only_the_admin_releases() {
    let mut w = World::new();
    let id = w.escrow(500, None);
    let mid = w.call(|c, now, ts| c.add_milestone(now, CLIENT, id, b"A".to_vec(), [2; 32], 200, ts)).0.unwrap();
    w.call(|c, now, ts| c.start_timelock(now, CLIENT, id, 86_400, ts)).0.unwrap();
    w.call(|c, now, ts| c.submit_milestone(now, FREELANCER, id, mid, ts)).0.unwrap();
    w.call(|c, now, ts| c.approve_milestone(now, CLIENT, id, mid, ts)).0.unwrap();
    w.now += 2 * 86_400;
    assert_eq!(w.call(|c, now, ts| c.release_funds(now, FREELANCER, id, mid, ts)).0, Err(EscrowError::AdminOnly));
    assert_eq!(w.call(|c, now, ts| c.release_funds(now, CLIENT, id, mid, ts)).0, Err(EscrowError::AdminOnly));
    assert_eq!(w.call(|c, now, ts| c.release_funds(now, ADMIN, id, mid, ts)).0, Ok(()));
}

#[test]
fn approval_leaves_the_submitted_count() {
    let mut w = World::new();
    let id = w.escrow(500, None);
    let mid = w.call(|c, now, ts| c.add_milestone(now, CLIENT, id, b"A".to_vec(), [2; 32], 200, ts)).0.unwrap();
    w.call(|c, now, ts| c.add_milestone(now, CLIENT, id, b"B".to_vec(), [3; 32], 100, ts)).0.unwrap();
    w.call(|c, now, ts| c.submit_milestone(now, FREELANCER, id, mid, ts)).0.unwrap();
    assert_eq!(w.c.stored_meta(id).unwrap().submitted_count, 1);
    w.call(|c, now, ts| c.approve_milestone(now, CLIENT, id, mid, ts)).0.unwrap();
    let meta = w.c.stored_meta(id).unwrap();
    assert_eq!(meta.submitted_count, 0);
    assert_eq!(meta.approved_count, 1);
    // nothing is pending any more, so the client may cancel the rest
    assert_eq!(w.call(|c, now, ts| c.cancel_escrow(now, CLIENT, id, ts)).0, Ok(()));
}

#[test]
fn batch_with_a_repeated_milestone_is_refused() {
    let mut w = World::new();
    let id = w.escrow(500, None);
    let mid = w.call(|c, now, ts| c.add_milestone(now, CLIENT, id, b"A".to_vec(), [2; 32], 100, ts)).0.unwrap();
    w.call(|c, now, ts| c.submit_milestone(now, FREELANCER, id, mid, ts)).0.unwrap();
    let (r, ts) = w.call(|c, now, ts| c.batch_approve_milestones(now, CLIENT, id, vec![mid, mid], ts));
    assert_eq!(r, Err(EscrowError::InvalidMilestoneState));
    assert!(ts.is_empty());
    let (r, ts) = w.call(|c, now, ts| c.batch_approve_milestones(now, CLIENT, id, vec![mid], ts));
    assert_eq!(r, Ok(100));
    assert_eq!(paid(&ts), 100);
}

#[test]
fn batch_release_with_a_repeated_milestone_is_refused() {
    let mut w = World::new();
    let id = w.escrow(500, None);
    let mid = w.call(|c, now, ts| c.add_milestone(now, CLIENT, id, b"A".to_vec(), [2; 32], 100, ts)).0.unwrap();
    w.call(|c, now, ts| c.start_timelock(now, CLIENT, id, 86_400, ts)).0.unwrap();
    w.call(|c, now, ts| c.submit_milestone(now, FREELANCER, id, mid, ts)).0.unwrap();
    w.call(|c, now, ts| c.approve_milestone(now, CLIENT, id, mid, ts)).0.unwrap();
    assert_eq!(
        w.call(|c, now, ts| c.batch_release_funds(now, ADMIN, id, vec![mid, mid], ts)).0,
        Err(EscrowError::InvalidMilestoneState)
    );
    assert_eq!(w.call(|c, now, ts| c.batch_release_funds(now, ADMIN, id, vec![mid], ts)).0, Ok(100));
}

#[test]
fn upheld_slash_pays_its_recipient() {
    let mut w = World::new();
    let id = w.escrow(100, Some(ARBITER));
    w.call(|c, now, ts| c.request_cancellation(now, CLIENT, id, b"stop".to_vec(), ts)).0.unwrap();
    w.now += CANCELLATION_DISPUTE_PERIOD;
    w.call(|c, now, ts| c.execute_cancellation(now, id, ts)).0.unwrap();
    w.call(|c, now, ts| c.dispute_slash(now, CLIENT, id, ts)).0.unwrap();
    let freelancer_before = w.balance(FREELANCER);
    w.call(|c, now, ts| c.resolve_slash_dispute(now, ARBITER, id, true, ts)).0.unwrap();
    assert_eq!(w.balance(FREELANCER), freelancer_before + 10);
    assert_eq!(w.call(|c, now, ts| c.get_slash_record(now, id, ts)).0.err(), Some(EscrowError::SlashNotFound));
}

#[test]
fn recurring_payments_are_not_released_again() {
    let mut w = World::new();
    let id = w
        .call(|c, now, ts| c.create_recurring_escrow(now, CLIENT, FREELANCER, TOKEN, 100, RecurringInterval::Daily, 10, None, Some(4), [5; 32], ts))
        .0
        .unwrap();
    w.now = 10 + 2 * 86_400 + 5;
    assert_eq!(w.call(|c, now, ts| c.process_recurring_payments(now, id, ts)).0, Ok(3));
    let m = w.call(|c, now, ts| c.get_milestone(now, id, 0, ts)).0.unwrap();
    assert_eq!(m.status, MS_RELEASED);
    assert_eq!(w.call(|c, now, ts| c.release_funds(now, ADMIN, id, 0, ts)).0, Err(EscrowError::InvalidMilestoneState));
}

#[test]
fn unapproved_wrapped_token_is_refused() {
    let mut w = World::new();
    let wrapped: u64 = 60;
    let info = WrappedTokenInfo { stellar_address: wrapped, origin_chain: 2, is_approved: false };
    assert_eq!(w.c.register_wrapped_token(CLIENT, info), Err(EscrowError::AdminOnly));
    assert_eq!(w.c.get_wrapped_token_info(wrapped), None);
    assert_eq!(w.c.register_wrapped_token(ADMIN, info), Ok(()));
    assert_eq!(w.c.get_wrapped_token_info(wrapped), Some(info));
    w.balances.insert((wrapped, CLIENT), 1_000);
    let multisig = MultisigConfig { approvers: Vec::new(), weights: Vec::new(), threshold: 0 };
    let (r, ts) = w.call(|c, now, ts| {
        c.create_escrow(now, CLIENT, FREELANCER, wrapped, 500, [1; 32], None, None, None, None, multisig, ts)
    });
    assert_eq!(r, Err(EscrowError::WrappedTokenNotApproved));
    assert!(ts.is_empty());
    assert_eq!(w.c.escrow_count(), 0);
}

#[test]
fn approved_wrapped_token_is_accepted() {
    let mut w = World::new();
    let wrapped: u64 = 61;
    let info = WrappedTokenInfo { stellar_address: wrapped, origin_chain: 5, is_approved: true };
    w.c.register_wrapped_token(ADMIN, info).unwrap();
    w.balances.insert((wrapped, CLIENT), 1_000);
    let multisig = MultisigConfig { approvers: Vec::new(), weights: Vec::new(), threshold: 0 };
    let (r, ts) = w.call(|c, now, ts| {
        c.create_escrow(now, CLIENT, FREELANCER, wrapped, 500, [1; 32], None, None, None, None, multisig, ts)
    });
    assert_eq!(r, Ok(0));
    assert!(ts.iter().all(|t| t.token == wrapped && t.from == CLIENT && t.to == CONTRACT));
    assert_eq!(ts[0].amount, 500);
    assert_eq!(*w.balances.get(&(wrapped, CLIENT)).unwrap(), 1_000 - paid(&ts));
    assert_eq!(w.balance(CLIENT), 10_000);
}

#[test]
fn range_tests_accept_ordinary_calls() {
    let mut w = World::new();
    assert!(w.c.creation_fits(0, CLIENT, FREELANCER, TOKEN, 500, None, None, None));
    assert!(w.c.recurring_creation_fits(0, CLIENT, FREELANCER, 100, RecurringInterval::Daily, 10, None, Some(4)));
    let id = w.escrow(400, Some(ARBITER));
    assert!(w.c.cancellation_request_fits(0, CLIENT, id, &b"stop".to_vec()));
    assert!(w.c.cancellation_execution_fits(0, id));
    assert!(w.c.dispute_resolution_fits(0, ARBITER, id, 200, 200));
    assert!(w.c.reputation_update_fits(0, CLIENT, true, true, 5_000));
}
