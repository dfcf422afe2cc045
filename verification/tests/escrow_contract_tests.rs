use std::collections::HashMap;

use escrow_contract::constants::{
    CANCELLATION_DISPUTE_PERIOD, RENT_PERIOD_SECONDS, RENT_RESERVE_PERIODS, SLASH_DISPUTE_PERIOD,
};
use escrow_contract::errors::EscrowError;
use escrow_contract::escrow::EscrowContract;
use escrow_contract::rent::ContractStorage;
use escrow_contract::types::{
    DataKey, EscrowStatus, MetaTransaction, MultisigConfig, PackedDataKey, RecurringInterval, Transfer,
};

const ADMIN: u64 = 1;
const CONTRACT: u64 = 1_000;

/// The contract together with a token ledger that carries out the transfers
/// the contract asks for, and the ledger clock.
struct World {
    now: u64,
    c: EscrowContract,
    balances: HashMap<(u64, u64), i128>,
    next_account: u64,
}

impl World {
    fn new() -> World {
        World { now: 0, c: EscrowContract::new(CONTRACT), balances: HashMap::new(), next_account: 10 }
    }

    fn initialized() -> World {
        let mut w = World::new();
        w.c.initialize(ADMIN).unwrap();
        w
    }

    fn account(&mut self) -> u64 {
        self.next_account += 1;
        self.next_account
    }

    fn mint(&mut self, token: u64, to: u64, amount: i128) {
        *self.balances.entry((token, to)).or_insert(0) += amount;
    }

    fn balance(&self, token: u64, who: u64) -> i128 {
        *self.balances.get(&(token, who)).unwrap_or(&0)
    }

    fn advance(&mut self, seconds: u64) {
        self.now += seconds;
    }

    fn apply(&mut self, ts: &[Transfer]) {
        for t in ts {
            let from = self.balances.entry((t.token, t.from)).or_insert(0);
            assert!(*from >= t.amount, "insufficient token balance for a transfer");
            *from -= t.amount;
            *self.balances.entry((t.token, t.to)).or_insert(0) += t.amount;
        }
    }

    fn call<T>(
        &mut self,
        f: impl FnOnce(&mut EscrowContract, u64, &mut Vec<Transfer>) -> Result<T, EscrowError>,
    ) -> Result<T, EscrowError> {
        let mut ts: Vec<Transfer> = Vec::new();
        let r = f(&mut self.c, self.now, &mut ts);
        if r.is_ok() {
            self.apply(&ts);
        } else {
            assert!(ts.is_empty());
        }
        r
    }

    fn create_escrow(&mut self, client: u64, freelancer: u64, token: u64, amount: i128, hash: u8) -> Result<u64, EscrowError> {
        self.call(|c, now, ts| {
            c.create_escrow(now, client, freelancer, token, amount, [hash; 32], None, None, None, None, no_multisig(), ts)
        })
    }

    fn add_milestone(&mut self, caller: u64, id: u64, title: &str, hash: u8, amount: i128) -> Result<u32, EscrowError> {
        let title = title.as_bytes().to_vec();
        self.call(|c, now, ts| c.add_milestone(now, caller, id, title, [hash; 32], amount, ts))
    }

    fn create_recurring(
        &mut self,
        client: u64,
        freelancer: u64,
        token: u64,
        payment: i128,
        interval: RecurringInterval,
        start: u64,
        count: Option<u32>,
        hash: u8,
    ) -> Result<u64, EscrowError> {
        self.call(|c, now, ts| {
            c.create_recurring_escrow(now, client, freelancer, token, payment, interval, start, None, count, [hash; 32], ts)
        })
    }
}

fn no_multisig() -> MultisigConfig {
    MultisigConfig { approvers: Vec::new(), weights: Vec::new(), threshold: 0 }
}

fn reserve() -> i128 {
    ContractStorage::reserve_for_entries(1)
}

/// An initialized contract with one escrow of `amount` funded by a fresh
/// client, who also holds one entry's rent reserve: (world, client, freelancer, token, escrow id).
fn setup_funded_escrow(amount: i128) -> (World, u64, u64, u64, u64) {
    let mut w = World::initialized();
    let client = w.account();
    let freelancer = w.account();
    let token = w.account();
    w.mint(token, client, amount + 2 * reserve());
    let id = w.create_escrow(client, freelancer, token, amount, 99).unwrap();
    (w, client, freelancer, token, id)
}

fn meta_tx(signer: u64, nonce: u64, deadline: u64) -> MetaTransaction {
    MetaTransaction {
        signer,
        nonce,
        deadline,
        function_name: b"get_admin".to_vec(),
        function_args: b"{}".to_vec(),
        signature: [0u8; 64],
    }
}

// ── Recurring escrows ───────────────────────────────────────────────────────────

#[test]
fn test_create_recurring_escrow_stores_schedule() {
    let mut w = World::initialized();
    let client = w.account();
    let freelancer = w.account();
    let token = w.account();
    w.mint(token, client, 300 + 2 * reserve());

    let start_time = w.now + 100;
    let id = w.create_recurring(client, freelancer, token, 100, RecurringInterval::Weekly, start_time, Some(3), 12).unwrap();

    let state = w.call(|c, now, ts| c.get_escrow(now, id, ts)).unwrap();
    let recurring = w.call(|c, now, ts| c.get_recurring_config(now, id, ts)).unwrap();
    assert_eq!(state.total_amount, 300);
    assert_eq!(recurring.total_payments, 3);
    assert_eq!(recurring.payments_remaining, 3);
    assert_eq!(recurring.next_payment_at, start_time);
}

#[test]
fn test_process_recurring_payments_releases_due_amounts() {
    let mut w = World::initialized();
    let client = w.account();
    let freelancer = w.account();
    let token = w.account();
    w.mint(token, client, 200 + 2 * reserve());

    let start_time = w.now + 10;
    let id = w.create_recurring(client, freelancer, token, 100, RecurringInterval::Daily, start_time, Some(2), 13).unwrap();

    w.advance(10);
    assert_eq!(w.call(|c, now, ts| c.process_recurring_payments(now, id, ts)), Ok(1));
    assert_eq!(w.balance(token, freelancer), 100);
    assert_eq!(w.call(|c, now, ts| c.get_escrow(now, id, ts)).unwrap().remaining_balance, 100);

    w.advance(86_400);
    assert_eq!(w.call(|c, now, ts| c.process_recurring_payments(now, id, ts)), Ok(1));
    assert_eq!(w.balance(token, freelancer), 200);
    assert_eq!(w.call(|c, now, ts| c.get_escrow(now, id, ts)).unwrap().status, EscrowStatus::Completed);
}

#[test]
fn test_process_recurring_payments_multi_period_catchup() {
    let mut w = World::initialized();
    let client = w.account();
    let freelancer = w.account();
    let token = w.account();
    let payment_amount = 100_i128;
    let total_payments = 5_u32;
    w.mint(token, client, payment_amount * total_payments as i128 + 2 * reserve());

    let interval_seconds: u64 = 86_400;
    let start_time = w.now + 10;
    let id = w
        .create_recurring(client, freelancer, token, payment_amount, RecurringInterval::Daily, start_time, Some(total_payments), 99)
        .unwrap();

    w.now = start_time + 3 * interval_seconds - 1;
    let processed = w.call(|c, now, ts| c.process_recurring_payments(now, id, ts)).unwrap();
    assert_eq!(processed, 3);

    let recurring = w.call(|c, now, ts| c.get_recurring_config(now, id, ts)).unwrap();
    assert_eq!(recurring.payments_remaining, total_payments - 3);
    assert_eq!(recurring.processed_payments, 3);
    assert_eq!(recurring.next_payment_at, start_time + 3 * interval_seconds);
    assert_eq!(w.balance(token, freelancer), payment_amount * 3);
}

#[test]
fn test_pause_and_resume_recurring_schedule() {
    let mut w = World::initialized();
    let client = w.account();
    let freelancer = w.account();
    let token = w.account();
    w.mint(token, client, 200 + 2 * reserve());

    let start_time = w.now + 10;
    let id = w.create_recurring(client, freelancer, token, 100, RecurringInterval::Daily, start_time, Some(2), 14).unwrap();

    w.call(|c, now, ts| c.pause_recurring_schedule(now, client, id, ts)).unwrap();
    w.advance(10);
    let paused_result = w.call(|c, now, ts| c.process_recurring_payments(now, id, ts));
    assert!(matches!(paused_result, Err(EscrowError::RecurringSchedulePaused)));

    w.call(|c, now, ts| c.resume_recurring_schedule(now, client, id, ts)).unwrap();
    let recurring = w.call(|c, now, ts| c.get_recurring_config(now, id, ts)).unwrap();
    assert!(!recurring.paused);
    assert_eq!(w.call(|c, now, ts| c.process_recurring_payments(now, id, ts)), Ok(1));
}

#[test]
fn test_cancel_recurring_escrow_refunds_unreleased_balance() {
    let mut w = World::initialized();
    let client = w.account();
    let freelancer = w.account();
    let token = w.account();
    w.mint(token, client, 300 + 2 * reserve());

    let start_time = w.now + 10;
    let id = w.create_recurring(client, freelancer, token, 100, RecurringInterval::Daily, start_time, Some(3), 15).unwrap();

    w.advance(10);
    w.call(|c, now, ts| c.process_recurring_payments(now, id, ts)).unwrap();
    w.call(|c, now, ts| c.cancel_recurring_escrow(now, client, id, ts)).unwrap();

    assert_eq!(w.balance(token, client), 200);
    assert_eq!(w.call(|c, now, ts| c.get_escrow(now, id, ts)).unwrap().status, EscrowStatus::Cancelled);
    assert!(w.call(|c, now, ts| c.get_recurring_config(now, id, ts)).unwrap().cancelled);
}

// ── Storage layout and reads ────────────────────────────────────────────────────

#[test]
fn test_initialize_uses_instance_storage() {
    let w = World::initialized();
    assert!(w.c.instance_has(DataKey::Admin));
    assert!(w.c.instance_has(DataKey::EscrowCounter));
    assert!(!w.c.persistent_has(DataKey::Admin));
    assert!(!w.c.persistent_has(DataKey::EscrowCounter));
}

#[test]
fn test_get_admin_returns_initialized_admin() {
    let w = World::initialized();
    assert_eq!(w.c.get_admin(), Ok(ADMIN));
}

#[test]
#[should_panic]
fn test_get_admin_not_initialized_panics() {
    let w = World::new();
    w.c.get_admin().unwrap();
}

#[test]
fn test_create_escrow_packs_metadata_separately() {
    let mut w = World::initialized();
    let client = w.account();
    let freelancer = w.account();
    let token = w.account();
    let expected_rent_reserve = reserve();
    w.mint(token, client, 1_000 + expected_rent_reserve);

    let id = w.create_escrow(client, freelancer, token, 1_000, 1).unwrap();
    assert_eq!(id, 0);
    assert_eq!(w.balance(token, CONTRACT), 1_000 + expected_rent_reserve);

    assert!(w.c.packed_has(PackedDataKey::EscrowMeta(id)));
    assert!(!w.c.persistent_has(DataKey::Escrow(id)));
    let meta = w.c.stored_meta(id).unwrap();
    assert_eq!(meta.rent_balance, expected_rent_reserve);
}

#[test]
fn test_get_milestone_reads_granular_storage_entry() {
    let mut w = World::initialized();
    let client = w.account();
    let freelancer = w.account();
    let token = w.account();
    w.mint(token, client, 1_000 + 2 * reserve());

    let id = w.create_escrow(client, freelancer, token, 1_000, 2).unwrap();
    let mid = w.add_milestone(client, id, "Design", 3, 300).unwrap();

    let milestone = w.call(|c, now, ts| c.get_milestone(now, id, mid, ts)).unwrap();
    assert_eq!(milestone.id, mid);
    assert_eq!(milestone.amount, 300);
    assert!(w.c.packed_has(PackedDataKey::Milestone(id, mid)));
}

#[test]
fn test_get_reputation_returns_default_record() {
    let mut w = World::new();
    let user = w.account();
    let record = w.c.get_reputation(w.now, user).unwrap();
    assert_eq!(record.address, user);
    assert_eq!(record.total_score, 0);
    assert_eq!(record.completed_escrows, 0);
}

#[test]
fn test_approve_milestone_o1_completion_check() {
    let mut w = World::initialized();
    let client = w.account();
    let freelancer = w.account();
    let token = w.account();
    w.mint(token, client, 500 + 2 * reserve());

    let id = w.create_escrow(client, freelancer, token, 500, 4).unwrap();
    let mid = w.add_milestone(client, id, "Dev", 5, 500).unwrap();
    w.call(|c, now, ts| c.submit_milestone(now, freelancer, id, mid, ts)).unwrap();
    w.call(|c, now, ts| c.approve_milestone(now, client, id, mid, ts)).unwrap();

    let state = w.call(|c, now, ts| c.get_escrow(now, id, ts)).unwrap();
    assert_eq!(state.status, EscrowStatus::Completed);

    let meta = w.c.stored_meta(id).unwrap();
    assert_eq!(meta.approved_count, 1);
    assert_eq!(meta.milestone_count, 1);
}

#[test]
fn test_cancel_escrow() {
    let mut w = World::initialized();
    let client = w.account();
    let freelancer = w.account();
    let token = w.account();
    w.mint(token, client, 200 + reserve());

    let id = w.create_escrow(client, freelancer, token, 200, 6).unwrap();
    w.call(|c, now, ts| c.cancel_escrow(now, client, id, ts)).unwrap();

    let state = w.call(|c, now, ts| c.get_escrow(now, id, ts)).unwrap();
    assert_eq!(state.status, EscrowStatus::Cancelled);
    assert_eq!(w.balance(token, client), 200);
}

// ── Storage rent ────────────────────────────────────────────────────────────────

#[test]
fn test_collect_rent_transfers_periodic_fees_to_admin() {
    let mut w = World::initialized();
    let client = w.account();
    let freelancer = w.account();
    let token = w.account();
    let start = w.now;
    w.mint(token, client, 1_000 + reserve());

    let id = w.create_escrow(client, freelancer, token, 1_000, 7).unwrap();
    w.advance(3 * RENT_PERIOD_SECONDS);

    let collected = w.call(|c, now, ts| c.collect_rent(now, id, ts)).unwrap();
    assert_eq!(collected, 3);
    assert_eq!(w.balance(token, ADMIN), 3);

    let meta = w.c.stored_meta(id).unwrap();
    assert_eq!(meta.rent_balance, 27);
    assert_eq!(meta.last_rent_collection_at, start + 3 * RENT_PERIOD_SECONDS);
}

#[test]
fn test_expired_escrow_is_cleaned_up_by_collect_rent() {
    let mut w = World::initialized();
    let client = w.account();
    let freelancer = w.account();
    let token = w.account();
    w.mint(token, client, 200 + 2 * reserve());

    let id = w.create_escrow(client, freelancer, token, 200, 8).unwrap();
    let mid = w.add_milestone(client, id, "Scope", 9, 200).unwrap();

    w.advance((RENT_RESERVE_PERIODS + 1) * RENT_PERIOD_SECONDS);

    let collected = w.call(|c, now, ts| c.collect_rent(now, id, ts)).unwrap();
    assert_eq!(collected, 60);
    assert_eq!(w.balance(token, ADMIN), 60);
    assert_eq!(w.balance(token, client), 200);

    let result = w.call(|c, now, ts| c.get_milestone(now, id, mid, ts));
    assert!(matches!(result, Err(EscrowError::EscrowNotFound)));
    assert!(!w.c.packed_has(PackedDataKey::EscrowMeta(id)));
    assert!(!w.c.packed_has(PackedDataKey::Milestone(id, mid)));
}

#[test]
fn test_top_up_rent_extends_escrow_lifetime() {
    let mut w = World::initialized();
    let client = w.account();
    let freelancer = w.account();
    let token = w.account();
    w.mint(token, client, 100 + 2 * reserve());

    let id = w.create_escrow(client, freelancer, token, 100, 10).unwrap();
    let topped_up = w.call(|c, now, ts| c.top_up_rent(now, client, id, 5, ts)).unwrap();
    assert_eq!(topped_up, 5);

    w.advance((RENT_RESERVE_PERIODS + 3) * RENT_PERIOD_SECONDS);

    let state = w.call(|c, now, ts| c.get_escrow(now, id, ts)).unwrap();
    assert_eq!(state.status, EscrowStatus::Active);

    let meta = w.c.stored_meta(id).unwrap();
    assert_eq!(meta.rent_balance, 2);
    assert_eq!(meta.last_rent_collection_at, state.created_at + (RENT_RESERVE_PERIODS + 3) * RENT_PERIOD_SECONDS);
}

#[test]
fn test_cancellation_request_funds_extra_storage_rent() {
    let mut w = World::initialized();
    let client = w.account();
    let freelancer = w.account();
    let token = w.account();
    w.mint(token, client, 250 + 2 * reserve());

    let id = w.create_escrow(client, freelancer, token, 250, 11).unwrap();
    w.call(|c, now, ts| c.request_cancellation(now, client, id, b"Need to stop".to_vec(), ts)).unwrap();
    assert_eq!(w.balance(token, CONTRACT), 250 + 2 * reserve());

    w.advance(RENT_PERIOD_SECONDS);
    let collected = w.call(|c, now, ts| c.collect_rent(now, id, ts)).unwrap();
    assert_eq!(collected, 2);
    assert_eq!(w.balance(token, ADMIN), 2);

    let meta = w.c.stored_meta(id).unwrap();
    assert_eq!(meta.rent_balance, 58);
    assert!(w.c.persistent_has(DataKey::CancellationRequest(id)));
}

// ── Cancellation and slashing ───────────────────────────────────────────────────

#[test]
fn test_execute_cancellation_slashes_requester_and_distributes() {
    let (mut w, client, freelancer, token, id) = setup_funded_escrow(100);
    w.call(|c, now, ts| c.request_cancellation(now, client, id, b"Changed my mind".to_vec(), ts)).unwrap();

    w.advance(CANCELLATION_DISPUTE_PERIOD + 1);
    w.call(|c, now, ts| c.execute_cancellation(now, id, ts)).unwrap();
    assert_eq!(w.balance(token, client), 90);
    assert_eq!(w.balance(token, freelancer), 0);

    w.advance(SLASH_DISPUTE_PERIOD + 1);
    w.call(|c, now, ts| c.finalize_slash(now, id, ts)).unwrap();
    assert_eq!(w.balance(token, freelancer), 10);

    let state = w.call(|c, now, ts| c.get_escrow(now, id, ts)).unwrap();
    assert_eq!(state.status, EscrowStatus::Cancelled);
    assert_eq!(state.remaining_balance, 0);
}

#[test]
fn test_execute_cancellation_freelancer_requester_slashes_to_client() {
    let (mut w, client, freelancer, token, id) = setup_funded_escrow(200);
    w.mint(token, freelancer, reserve());

    w.call(|c, now, ts| c.request_cancellation(now, freelancer, id, b"Cannot deliver".to_vec(), ts)).unwrap();
    w.advance(CANCELLATION_DISPUTE_PERIOD + 1);
    w.call(|c, now, ts| c.execute_cancellation(now, id, ts)).unwrap();

    assert_eq!(w.balance(token, freelancer), 180);
    assert_eq!(w.balance(token, client), 30);

    w.advance(SLASH_DISPUTE_PERIOD + 1);
    w.call(|c, now, ts| c.finalize_slash(now, id, ts)).unwrap();
    assert_eq!(w.balance(token, client), 50);
}

#[test]
fn test_execute_cancellation_fails_during_dispute_period() {
    let (mut w, client, _, _, id) = setup_funded_escrow(100);
    w.call(|c, now, ts| c.request_cancellation(now, client, id, b"reason".to_vec(), ts)).unwrap();

    let result = w.call(|c, now, ts| c.execute_cancellation(now, id, ts));
    assert!(matches!(result, Err(EscrowError::CancellationDisputePeriodActive)));
}

#[test]
fn test_dispute_cancellation_blocks_execution() {
    let (mut w, client, freelancer, _, id) = setup_funded_escrow(100);
    w.call(|c, now, ts| c.request_cancellation(now, client, id, b"reason".to_vec(), ts)).unwrap();
    w.call(|c, now, ts| c.dispute_cancellation(now, freelancer, id, ts)).unwrap();

    w.advance(CANCELLATION_DISPUTE_PERIOD + 1);
    let result = w.call(|c, now, ts| c.execute_cancellation(now, id, ts));
    assert!(matches!(result, Err(EscrowError::CancellationDisputed)));

    let state = w.call(|c, now, ts| c.get_escrow(now, id, ts)).unwrap();
    assert_eq!(state.status, EscrowStatus::Disputed);
}

#[test]
fn test_slash_reputation_updated_on_cancellation() {
    let (mut w, client, _, _, id) = setup_funded_escrow(100);
    w.call(|c, now, ts| c.request_cancellation(now, client, id, b"reason".to_vec(), ts)).unwrap();
    w.advance(CANCELLATION_DISPUTE_PERIOD + 1);
    w.call(|c, now, ts| c.execute_cancellation(now, id, ts)).unwrap();

    let rep = w.c.get_reputation(w.now, client).unwrap();
    assert_eq!(rep.slash_count, 1);
    assert_eq!(rep.total_slashed, 10);
}

#[test]
fn test_dispute_slash_reversal_restores_funds_and_reputation() {
    let (mut w, client, freelancer, token, id) = setup_funded_escrow(100);
    w.call(|c, now, ts| c.request_cancellation(now, client, id, b"reason".to_vec(), ts)).unwrap();
    w.advance(CANCELLATION_DISPUTE_PERIOD + 1);
    w.call(|c, now, ts| c.execute_cancellation(now, id, ts)).unwrap();
    assert_eq!(w.balance(token, freelancer), 0);

    w.call(|c, now, ts| c.dispute_slash(now, client, id, ts)).unwrap();
    w.call(|c, now, ts| c.resolve_slash_dispute(now, ADMIN, id, false, ts)).unwrap();
    assert_eq!(w.balance(token, client), 100);

    let rep = w.c.get_reputation(w.now, client).unwrap();
    assert_eq!(rep.slash_count, 0);
    assert_eq!(rep.total_slashed, 0);
}

#[test]
fn test_slash_record_created_and_dispute_window_enforced() {
    let (mut w, client, freelancer, token, id) = setup_funded_escrow(100);
    w.call(|c, now, ts| c.request_cancellation(now, client, id, b"Changed mind".to_vec(), ts)).unwrap();
    w.advance(CANCELLATION_DISPUTE_PERIOD + 1);
    w.call(|c, now, ts| c.execute_cancellation(now, id, ts)).unwrap();

    let slash = w.call(|c, now, ts| c.get_slash_record(now, id, ts)).unwrap();
    assert_eq!(slash.escrow_id, id);
    assert_eq!(slash.slashed_user, client);
    assert_eq!(slash.recipient, freelancer);
    assert_eq!(slash.amount, 10);
    assert!(!slash.disputed);

    let err = w.call(|c, now, ts| c.finalize_slash(now, id, ts));
    assert!(matches!(err, Err(EscrowError::SlashDisputeDeadlineExpired)));

    w.advance(SLASH_DISPUTE_PERIOD + 1);
    w.call(|c, now, ts| c.finalize_slash(now, id, ts)).unwrap();
    assert_eq!(w.balance(token, freelancer), 10);

    let err = w.call(|c, now, ts| c.get_slash_record(now, id, ts));
    assert!(matches!(err, Err(EscrowError::SlashNotFound)));
}

#[test]
fn test_cancellation_workflow_end_to_end() {
    let (mut w, client, freelancer, token, id) = setup_funded_escrow(200);
    w.call(|c, now, ts| c.request_cancellation(now, client, id, b"No longer needed".to_vec(), ts)).unwrap();

    let req = w.call(|c, now, ts| c.get_cancellation_request(now, id, ts)).unwrap();
    assert_eq!(req.requester, client);
    assert!(!req.disputed);

    w.advance(CANCELLATION_DISPUTE_PERIOD + 1);
    w.call(|c, now, ts| c.execute_cancellation(now, id, ts)).unwrap();

    let state = w.call(|c, now, ts| c.get_escrow(now, id, ts)).unwrap();
    assert_eq!(state.status, EscrowStatus::Cancelled);
    assert_eq!(state.remaining_balance, 0);
    assert_eq!(w.balance(token, client), 180);
    assert_eq!(w.balance(token, freelancer), 0);

    let err = w.call(|c, now, ts| c.get_cancellation_request(now, id, ts));
    assert!(matches!(err, Err(EscrowError::CancellationNotFound)));

    w.advance(SLASH_DISPUTE_PERIOD + 1);
    w.call(|c, now, ts| c.finalize_slash(now, id, ts)).unwrap();
    assert_eq!(w.balance(token, freelancer), 20);
}

// ── Emergency pause ─────────────────────────────────────────────────────────────

/// An initialized contract with one funded escrow of `amount`:
/// (world, client, freelancer, token, escrow id).
fn setup_pause_escrow(amount: i128) -> (World, u64, u64, u64, u64) {
    setup_funded_escrow(amount)
}

#[test]
fn test_pause_sets_state_and_emits_event() {
    let (mut w, _, _, _, _) = setup_pause_escrow(100);
    assert!(!w.c.is_paused());
    w.c.pause(ADMIN).unwrap();
    assert!(w.c.is_paused());
}

#[test]
fn test_unpause_clears_state_and_emits_event() {
    let (mut w, _, _, _, _) = setup_pause_escrow(100);
    w.c.pause(ADMIN).unwrap();
    assert!(w.c.is_paused());
    w.c.unpause(ADMIN).unwrap();
    assert!(!w.c.is_paused());
}

#[test]
fn test_pause_is_idempotent() {
    let (mut w, _, _, _, _) = setup_pause_escrow(100);
    w.c.pause(ADMIN).unwrap();
    w.c.pause(ADMIN).unwrap();
    assert!(w.c.is_paused());
}

#[test]
fn test_unpause_is_idempotent() {
    let (mut w, _, _, _, _) = setup_pause_escrow(100);
    w.c.unpause(ADMIN).unwrap();
    assert!(!w.c.is_paused());
}

#[test]
#[should_panic]
fn test_pause_non_admin_rejected() {
    let (mut w, client, _, _, _) = setup_pause_escrow(100);
    w.c.pause(client).unwrap();
}

#[test]
#[should_panic]
fn test_unpause_non_admin_rejected() {
    let (mut w, client, _, _, _) = setup_pause_escrow(100);
    w.c.pause(ADMIN).unwrap();
    w.c.unpause(client).unwrap();
}

#[test]
#[should_panic]
fn test_create_escrow_blocked_when_paused() {
    let (mut w, client, freelancer, token, _) = setup_pause_escrow(100);
    w.c.pause(ADMIN).unwrap();
    w.mint(token, client, 200);
    w.create_escrow(client, freelancer, token, 100, 1).unwrap();
}

#[test]
#[should_panic]
fn test_add_milestone_blocked_when_paused() {
    let (mut w, client, _, _, id) = setup_pause_escrow(100);
    w.c.pause(ADMIN).unwrap();
    w.add_milestone(client, id, "M1", 0, 50).unwrap();
}

#[test]
#[should_panic]
fn test_submit_milestone_blocked_when_paused() {
    let (mut w, client, freelancer, _, id) = setup_pause_escrow(100);
    w.add_milestone(client, id, "M1", 0, 50).unwrap();
    w.c.pause(ADMIN).unwrap();
    w.call(|c, now, ts| c.submit_milestone(now, freelancer, id, 0, ts)).unwrap();
}

#[test]
#[should_panic]
fn test_approve_milestone_blocked_when_paused() {
    let (mut w, client, freelancer, _, id) = setup_pause_escrow(100);
    w.add_milestone(client, id, "M1", 0, 50).unwrap();
    w.call(|c, now, ts| c.submit_milestone(now, freelancer, id, 0, ts)).unwrap();
    w.c.pause(ADMIN).unwrap();
    w.call(|c, now, ts| c.approve_milestone(now, client, id, 0, ts)).unwrap();
}

#[test]
#[should_panic]
fn test_cancel_escrow_blocked_when_paused() {
    let (mut w, client, _, _, id) = setup_pause_escrow(100);
    w.c.pause(ADMIN).unwrap();
    w.call(|c, now, ts| c.cancel_escrow(now, client, id, ts)).unwrap();
}

#[test]
#[should_panic]
fn test_raise_dispute_blocked_when_paused() {
    let (mut w, client, _, _, id) = setup_pause_escrow(100);
    w.c.pause(ADMIN).unwrap();
    w.call(|c, now, ts| c.raise_dispute(now, client, id, None, ts)).unwrap();
}

#[test]
#[should_panic]
fn test_request_cancellation_blocked_when_paused() {
    let (mut w, client, _, _, id) = setup_pause_escrow(100);
    w.c.pause(ADMIN).unwrap();
    w.call(|c, now, ts| c.request_cancellation(now, client, id, b"reason".to_vec(), ts)).unwrap();
}

#[test]
fn test_view_functions_work_when_paused() {
    let (mut w, _, _, _, id) = setup_pause_escrow(100);
    w.c.pause(ADMIN).unwrap();
    assert!(w.call(|c, now, ts| c.get_escrow(now, id, ts)).is_ok());
    let _ = w.c.escrow_count();
    let _ = w.c.is_paused();
}

#[test]
fn test_pause_unpause_cycle_restores_mutations() {
    let (mut w, client, _, _, id) = setup_pause_escrow(100);
    w.c.pause(ADMIN).unwrap();
    assert!(w.c.is_paused());

    let result = w.add_milestone(client, id, "M1", 0, 50);
    assert!(result.is_err(), "add_milestone should fail while paused");

    w.c.unpause(ADMIN).unwrap();
    assert!(!w.c.is_paused());

    let mid = w.add_milestone(client, id, "M1", 0, 50).unwrap();
    assert_eq!(mid, 0);
}

// ── Milestone titles ────────────────────────────────────────────────────────────

/// An escrow of 500 with one pending milestone of 100:
/// (world, client, freelancer, escrow id, milestone id).
fn setup_escrow_with_milestone() -> (World, u64, u64, u64, u32) {
    let mut w = World::initialized();
    let client = w.account();
    let freelancer = w.account();
    let token = w.account();
    w.mint(token, client, 500 + 2 * reserve());
    let id = w.create_escrow(client, freelancer, token, 500, 9).unwrap();
    let mid = w.add_milestone(client, id, "Original Title", 0, 100).unwrap();
    (w, client, freelancer, id, mid)
}

#[test]
fn test_update_milestone_title_pending_succeeds() {
    let (mut w, client, _, id, mid) = setup_escrow_with_milestone();
    w.call(|c, now, ts| c.update_milestone_title(now, client, id, mid, b"Corrected Title".to_vec(), ts)).unwrap();
    let milestone = w.call(|c, now, ts| c.get_milestone(now, id, mid, ts)).unwrap();
    assert_eq!(milestone.title, b"Corrected Title".to_vec());
}

#[test]
fn test_update_milestone_title_non_pending_rejected() {
    let (mut w, client, freelancer, id, mid) = setup_escrow_with_milestone();
    w.call(|c, now, ts| c.submit_milestone(now, freelancer, id, mid, ts)).unwrap();
    let result = w.call(|c, now, ts| c.update_milestone_title(now, client, id, mid, b"New Title".to_vec(), ts));
    assert_eq!(result, Err(EscrowError::InvalidMilestoneState));
}

#[test]
fn test_update_milestone_title_too_long_rejected() {
    let (mut w, client, _, id, mid) = setup_escrow_with_milestone();
    let long = "a".repeat(257).into_bytes();
    let result = w.call(|c, now, ts| c.update_milestone_title(now, client, id, mid, long, ts));
    assert_eq!(result, Err(EscrowError::StringTooLong));
}

// ── Buyer signers and reputation ────────────────────────────────────────────────

#[test]
fn test_multisig_approval_reaching_threshold() {
    let mut w = World::initialized();
    let client = w.account();
    let freelancer = w.account();
    let signer_b = w.account();
    let signer_c = w.account();
    let token = w.account();
    let amount = 300_i128;
    w.mint(token, client, amount + 2 * reserve());

    let signers = vec![signer_b, signer_c];
    let id = w
        .call(|c, now, ts| {
            c.create_escrow_with_buyer_signers(now, client, freelancer, token, amount, [20; 32], None, None, None, signers, ts)
        })
        .unwrap();

    let state = w.call(|c, now, ts| c.get_escrow(now, id, ts)).unwrap();
    assert!(state.buyer_signers.contains(&client));
    assert!(state.buyer_signers.contains(&signer_b));
    assert!(state.buyer_signers.contains(&signer_c));

    let mid = w.add_milestone(client, id, "Deliverable", 21, amount).unwrap();
    w.call(|c, now, ts| c.submit_milestone(now, freelancer, id, mid, ts)).unwrap();
    w.call(|c, now, ts| c.approve_milestone(now, signer_b, id, mid, ts)).unwrap();

    let approvals = w.call(|c, now, ts| c.get_milestone_approvals(now, id, mid, ts));
    assert!(approvals.is_ok());

    let state = w.call(|c, now, ts| c.get_escrow(now, id, ts)).unwrap();
    assert_eq!(state.status, EscrowStatus::Completed);
    assert_eq!(w.balance(token, freelancer), amount);
}

#[test]
fn test_reputation_created_on_first_completion() {
    let mut w = World::initialized();
    let client = w.account();
    let freelancer = w.account();
    let token = w.account();
    let amount = 500_i128;
    w.mint(token, client, amount + 2 * reserve());

    let id = w.create_escrow(client, freelancer, token, amount, 30).unwrap();
    let mid = w.add_milestone(client, id, "Work", 31, amount).unwrap();
    w.call(|c, now, ts| c.submit_milestone(now, freelancer, id, mid, ts)).unwrap();
    w.call(|c, now, ts| c.approve_milestone(now, client, id, mid, ts)).unwrap();

    let state = w.call(|c, now, ts| c.get_escrow(now, id, ts)).unwrap();
    assert_eq!(state.status, EscrowStatus::Completed);

    let now = w.now;
    w.c.update_reputation(now, freelancer, true, false, amount).unwrap();
    w.c.update_reputation(now, client, true, false, amount).unwrap();

    let freelancer_rep = w.c.get_reputation(now, freelancer).unwrap();
    assert_eq!(freelancer_rep.completed_escrows, 1);
    assert_eq!(freelancer_rep.total_volume, amount);

    let client_rep = w.c.get_reputation(now, client).unwrap();
    assert_eq!(client_rep.completed_escrows, 1);
    assert_eq!(client_rep.total_volume, amount);
}

// ── Meta-transactions ───────────────────────────────────────────────────────────

#[test]
fn test_meta_transaction_expired_deadline_rejected() {
    let mut w = World::new();
    let signer = w.account();
    let now = 1_000_000u64;
    w.now = now;
    let result = w.c.execute_meta_transaction(w.now, &meta_tx(signer, 1, now - 1));
    assert!(
        matches!(result, Err(EscrowError::DeadlineExpired)),
        "MetaTransaction with expired deadline must return DeadlineExpired"
    );
}

#[test]
fn test_meta_transaction_valid_deadline_accepted() {
    let mut w = World::new();
    let signer = w.account();
    let now = 1_000_000u64;
    w.now = now;
    let result = w.c.execute_meta_transaction(w.now, &meta_tx(signer, 1, now + 60));
    assert!(
        !matches!(result, Err(EscrowError::DeadlineExpired)),
        "MetaTransaction with valid deadline must not return DeadlineExpired"
    );
}

#[test]
fn test_meta_transaction_becomes_expired_after_time_passes() {
    let mut w = World::new();
    let signer = w.account();
    let now = 1_000_000u64;
    w.now = now;
    let tx = meta_tx(signer, 1, now + 60);

    let result_before = w.c.execute_meta_transaction(w.now, &tx);
    assert!(
        !matches!(result_before, Err(EscrowError::DeadlineExpired)),
        "Before deadline: must not return DeadlineExpired"
    );

    w.now = now + 61;
    let result_after = w.c.execute_meta_transaction(w.now, &tx);
    assert!(
        matches!(result_after, Err(EscrowError::DeadlineExpired)),
        "After deadline: must return DeadlineExpired"
    );
}

#[test]
fn test_meta_transaction_valid_nonce_and_replay_rejected() {
    let mut w = World::new();
    let signer = w.account();
    let now = 2_000_000u64;
    w.now = now;
    let result = w.c.execute_meta_transaction(w.now, &meta_tx(signer, 1, now + 3600));
    assert!(
        !matches!(result, Err(EscrowError::DeadlineExpired)),
        "First execution with valid deadline must not return DeadlineExpired"
    );
}

#[test]
fn test_meta_transaction_nonce_replay_rejected() {
    let mut w = World::new();
    let signer = w.account();
    let now = 3_000_000u64;
    w.now = now;

    let result = w.c.execute_meta_transaction(w.now, &meta_tx(signer, 1, now - 1));
    assert!(matches!(result, Err(EscrowError::DeadlineExpired)), "Expired deadline must return DeadlineExpired");

    let result2 = w.c.execute_meta_transaction(w.now, &meta_tx(signer, 0, now + 3600));
    assert!(
        !matches!(result2, Err(EscrowError::DeadlineExpired)),
        "Valid deadline must not return DeadlineExpired regardless of nonce"
    );
}

// ── Rent depletion ──────────────────────────────────────────────────────────────

#[test]
fn test_expire_escrow_rent_depletion_complete_cleanup() {
    let mut w = World::initialized();
    let client = w.account();
    let freelancer = w.account();
    let token = w.account();
    let escrow_amount = 500_i128;
    w.mint(token, client, escrow_amount + 2 * reserve());

    let id = w.create_escrow(client, freelancer, token, escrow_amount, 42).unwrap();
    let mid = w.add_milestone(client, id, "Deliverable", 43, escrow_amount).unwrap();
    let balance_after_create = w.balance(token, client);

    w.advance((RENT_RESERVE_PERIODS + 2) * RENT_PERIOD_SECONDS);
    w.call(|c, now, ts| c.collect_rent(now, id, ts)).unwrap();

    let balance_after_expiry = w.balance(token, client);
    assert!(balance_after_expiry > balance_after_create, "Client must receive refund after expiry");
    assert!(balance_after_expiry >= escrow_amount, "Client refund must cover remaining_balance");

    let result = w.call(|c, now, ts| c.get_escrow(now, id, ts));
    assert!(matches!(result, Err(EscrowError::EscrowNotFound)), "get_escrow must return EscrowNotFound after expiry");
    let milestone_result = w.call(|c, now, ts| c.get_milestone(now, id, mid, ts));
    assert!(
        matches!(milestone_result, Err(EscrowError::EscrowNotFound)),
        "get_milestone must return EscrowNotFound after expiry"
    );
    assert!(!w.c.packed_has(PackedDataKey::EscrowMeta(id)), "EscrowMeta storage must be removed after expiry");
    assert!(!w.c.packed_has(PackedDataKey::Milestone(id, mid)), "Milestone storage must be removed after expiry");
}

// ── Whole flows ─────────────────────────────────────────────────────────────────

#[test]
fn test_full_escrow_lifecycle() {
    let mut w = World::initialized();
    let client = w.account();
    let freelancer = w.account();
    let token = w.account();
    w.mint(token, client, 1_000 + 3 * reserve());

    let id = w.create_escrow(client, freelancer, token, 1_000, 1).unwrap();
    let m0 = w.add_milestone(client, id, "Design", 2, 400).unwrap();
    let m1 = w.add_milestone(client, id, "Build", 3, 600).unwrap();
    for mid in [m0, m1] {
        w.call(|c, now, ts| c.submit_milestone(now, freelancer, id, mid, ts)).unwrap();
        w.call(|c, now, ts| c.approve_milestone(now, client, id, mid, ts)).unwrap();
    }
    let state = w.call(|c, now, ts| c.get_escrow(now, id, ts)).unwrap();
    assert_eq!(state.status, EscrowStatus::Completed);
    assert_eq!(state.remaining_balance, 0);
    assert_eq!(w.balance(token, freelancer), 1_000);
    assert_eq!(w.balance(token, client), 0);
}

#[test]
fn test_dispute_resolution() {
    let mut w = World::initialized();
    let client = w.account();
    let freelancer = w.account();
    let token = w.account();
    w.mint(token, client, 500 + reserve());

    let id = w.create_escrow(client, freelancer, token, 500, 1).unwrap();
    w.call(|c, now, ts| c.raise_dispute(now, freelancer, id, None, ts)).unwrap();
    assert_eq!(w.call(|c, now, ts| c.resolve_dispute(now, client, id, 200, 300, ts)), Err(EscrowError::AdminOnly));
    w.call(|c, now, ts| c.resolve_dispute(now, ADMIN, id, 200, 300, ts)).unwrap();

    assert_eq!(w.balance(token, client), 200);
    assert_eq!(w.balance(token, freelancer), 300);
    let state = w.call(|c, now, ts| c.get_escrow(now, id, ts)).unwrap();
    assert_eq!(state.status, EscrowStatus::Completed);
    assert_eq!(state.remaining_balance, 0);
}
