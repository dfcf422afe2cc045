use std::collections::HashMap;

use escrow_contract::gov_errors::GovError;
use escrow_contract::gov_events::GovEvent;
use escrow_contract::gov_types::{
    FundPayload, GovConfig, ParameterPayload, Proposal, ProposalPayload, ProposalStatus, ProposalType,
};
use escrow_contract::governance::{evaluate, GovernanceContract};
use escrow_contract::types::Transfer;

const VOTING_DELAY: u64 = 60;
const VOTING_PERIOD: u64 = 3_600;
const TIMELOCK_DELAY: u64 = 7_200;
const QUORUM_BPS: u32 = 400;
const APPROVAL_BPS: u32 = 5_100;
const THRESHOLD: i128 = 100;

const ADMIN: u64 = 1;
const TOKEN: u64 = 2;
const TREASURY: u64 = 1_000;

/// The governance contract with a token ledger whose balances give voting
/// power, the ledger clock, and the events published so far.
struct World {
    now: u64,
    gov: GovernanceContract,
    balances: HashMap<(u64, u64), i128>,
    events: Vec<GovEvent>,
    next_account: u64,
}

impl World {
    fn account(&mut self) -> u64 {
        self.next_account += 1;
        self.next_account
    }

    fn mint(&mut self, to: u64, amount: i128) {
        *self.balances.entry((TOKEN, to)).or_insert(0) += amount;
    }

    fn balance(&self, token: u64, who: u64) -> i128 {
        *self.balances.get(&(token, who)).unwrap_or(&0)
    }

    fn advance(&mut self, seconds: u64) {
        self.now += seconds;
    }

    fn create(&mut self, proposer: u64, title: &str, description: &str, t: ProposalType, payload: ProposalPayload) -> Result<u64, GovError> {
        let power = self.balance(TOKEN, proposer);
        self.gov.create_proposal(
            self.now,
            proposer,
            title.as_bytes().to_vec(),
            description.as_bytes().to_vec(),
            t,
            payload,
            10_000,
            power,
            &mut self.events,
        )
    }

    fn create_text(&mut self, proposer: u64) -> u64 {
        self.create(proposer, "T", "D", ProposalType::TextProposal, ProposalPayload::Text).unwrap()
    }

    fn vote(&mut self, voter: u64, id: u64, support: bool) -> Result<(), GovError> {
        let power = self.balance(TOKEN, voter);
        self.gov.cast_vote(self.now, voter, id, support, power, &mut self.events)
    }

    fn finalize(&mut self, id: u64) -> Result<ProposalStatus, GovError> {
        self.gov.finalize_proposal(self.now, id, &mut self.events)
    }

    fn execute(&mut self, id: u64) -> Result<(), GovError> {
        let mut ts: Vec<Transfer> = Vec::new();
        let r = self.gov.execute_proposal(self.now, id, &mut self.events, &mut ts);
        for t in &ts {
            let from = self.balances.entry((t.token, t.from)).or_insert(0);
            assert!(*from >= t.amount, "insufficient treasury balance");
            *from -= t.amount;
            *self.balances.entry((t.token, t.to)).or_insert(0) += t.amount;
        }
        r
    }
}

fn setup() -> World {
    let mut gov = GovernanceContract::new(TREASURY);
    gov.initialize(ADMIN, TOKEN, THRESHOLD, VOTING_DELAY, VOTING_PERIOD, TIMELOCK_DELAY, QUORUM_BPS, APPROVAL_BPS).unwrap();
    World { now: 0, gov, balances: HashMap::new(), events: Vec::new(), next_account: 10 }
}

/// A proposal that passed with one voter holding 10 000 tokens: (world, id).
fn queued_text_proposal() -> (World, u64) {
    let mut w = setup();
    let proposer = w.account();
    let voter = w.account();
    w.mint(proposer, THRESHOLD);
    w.mint(voter, 10_000);
    let id = w.create_text(proposer);
    w.advance(VOTING_DELAY + 1);
    w.vote(voter, id, true).unwrap();
    w.advance(VOTING_PERIOD);
    assert_eq!(w.finalize(id), Ok(ProposalStatus::Queued));
    (w, id)
}

// ── Initialization ──────────────────────────────────────────────────────────────

#[test]
fn test_initialize_stores_config() {
    let w = setup();
    let config = w.gov.get_config().unwrap();
    assert_eq!(config.token, TOKEN);
    assert_eq!(config.quorum_bps, QUORUM_BPS);
    assert_eq!(config.approval_threshold_bps, APPROVAL_BPS);
    assert_eq!(config.voting_period, VOTING_PERIOD);
    assert_eq!(config.timelock_delay, TIMELOCK_DELAY);
}

#[test]
fn test_double_initialize_fails() {
    let mut w = setup();
    let result = w.gov.initialize(ADMIN, TOKEN, THRESHOLD, VOTING_DELAY, VOTING_PERIOD, TIMELOCK_DELAY, QUORUM_BPS, APPROVAL_BPS);
    assert!(result.is_err());
}

// ── Proposal creation ───────────────────────────────────────────────────────────

#[test]
fn test_create_text_proposal() {
    let mut w = setup();
    let proposer = w.account();
    w.mint(proposer, THRESHOLD);

    let id = w.create(proposer, "Test proposal", "A signal-only proposal", ProposalType::TextProposal, ProposalPayload::Text).unwrap();
    assert_eq!(id, 0);
    assert_eq!(w.gov.proposal_count(), 1);

    let p = w.gov.get_proposal(id).unwrap();
    assert_eq!(p.status, ProposalStatus::Active);
    assert_eq!(p.votes_for, 0);
    assert_eq!(p.votes_against, 0);
}

#[test]
fn test_create_proposal_insufficient_tokens_fails() {
    let mut w = setup();
    let proposer = w.account();
    let result = w.create(proposer, "Fail", "No tokens", ProposalType::TextProposal, ProposalPayload::Text);
    assert!(result.is_err());
}

#[test]
fn test_create_proposal_mismatched_payload_fails() {
    let mut w = setup();
    let proposer = w.account();
    w.mint(proposer, THRESHOLD);
    let result = w.create(proposer, "Bad", "Mismatch", ProposalType::ParameterChange, ProposalPayload::Text);
    assert!(result.is_err());
}

// ── Voting ──────────────────────────────────────────────────────────────────────

#[test]
fn test_cast_vote_for() {
    let mut w = setup();
    let proposer = w.account();
    let voter = w.account();
    w.mint(proposer, THRESHOLD);
    w.mint(voter, 1_000);
    let id = w.create_text(proposer);

    w.advance(VOTING_DELAY + 1);
    w.vote(voter, id, true).unwrap();

    let p = w.gov.get_proposal(id).unwrap();
    assert_eq!(p.votes_for, 1_000);
    assert_eq!(p.votes_against, 0);
    assert!(w.gov.has_voted(id, voter));
}

#[test]
fn test_cast_vote_against() {
    let mut w = setup();
    let proposer = w.account();
    let voter = w.account();
    w.mint(proposer, THRESHOLD);
    w.mint(voter, 500);
    let id = w.create_text(proposer);

    w.advance(VOTING_DELAY + 1);
    w.vote(voter, id, false).unwrap();
    assert_eq!(w.gov.get_proposal(id).unwrap().votes_against, 500);
}

#[test]
fn test_double_vote_fails() {
    let mut w = setup();
    let proposer = w.account();
    let voter = w.account();
    w.mint(proposer, THRESHOLD);
    w.mint(voter, 1_000);
    let id = w.create_text(proposer);

    w.advance(VOTING_DELAY + 1);
    w.vote(voter, id, true).unwrap();
    let result = w.vote(voter, id, false);
    assert!(result.is_err());
}

#[test]
fn test_vote_before_delay_fails() {
    let mut w = setup();
    let proposer = w.account();
    let voter = w.account();
    w.mint(proposer, THRESHOLD);
    w.mint(voter, 1_000);
    let id = w.create_text(proposer);

    let result = w.vote(voter, id, true);
    assert!(result.is_err());
}

#[test]
fn test_vote_after_period_fails() {
    let mut w = setup();
    let proposer = w.account();
    let voter = w.account();
    w.mint(proposer, THRESHOLD);
    w.mint(voter, 1_000);
    let id = w.create_text(proposer);

    w.advance(VOTING_DELAY + VOTING_PERIOD + 1);
    let result = w.vote(voter, id, true);
    assert!(result.is_err());
}

// ── Finalization ────────────────────────────────────────────────────────────────

#[test]
fn test_finalize_passes_with_quorum_and_majority() {
    let mut w = setup();
    let proposer = w.account();
    let voter = w.account();
    w.mint(proposer, THRESHOLD);
    w.mint(voter, 10_000);
    let id = w.create_text(proposer);

    w.advance(VOTING_DELAY + 1);
    w.vote(voter, id, true).unwrap();
    w.advance(VOTING_PERIOD);
    assert_eq!(w.finalize(id), Ok(ProposalStatus::Queued));
}

#[test]
fn test_finalize_defeated_when_quorum_not_met() {
    let mut w = setup();
    let proposer = w.account();
    let voter = w.account();
    let whale = w.account();
    w.mint(proposer, THRESHOLD);
    w.mint(voter, 100);
    w.mint(whale, 99_800);
    let id = w.create_text(proposer);

    w.advance(VOTING_DELAY + 1);
    w.vote(voter, id, true).unwrap();
    w.advance(VOTING_PERIOD);
    assert_eq!(w.finalize(id), Ok(ProposalStatus::Defeated));
}

#[test]
fn test_finalize_before_vote_end_fails() {
    let mut w = setup();
    let proposer = w.account();
    w.mint(proposer, THRESHOLD);
    let id = w.create_text(proposer);

    w.advance(VOTING_DELAY + 1);
    assert!(w.finalize(id).is_err());
}

// ── Timelock and execution ──────────────────────────────────────────────────────

#[test]
fn test_execute_before_timelock_fails() {
    let (mut w, id) = queued_text_proposal();
    assert!(w.execute(id).is_err());
}

#[test]
fn test_execute_text_proposal_after_timelock() {
    let (mut w, id) = queued_text_proposal();
    w.advance(TIMELOCK_DELAY + 1);
    w.execute(id).unwrap();
    let p = w.gov.get_proposal(id).unwrap();
    assert_eq!(p.status, ProposalStatus::Executed);
    assert!(p.executed_at.is_some());
}

#[test]
fn test_execute_fund_allocation_transfers_tokens() {
    let mut w = setup();
    let proposer = w.account();
    let voter = w.account();
    let recipient = w.account();
    w.mint(proposer, THRESHOLD);
    w.mint(voter, 10_000);
    w.mint(TREASURY, 5_000);

    let payload = ProposalPayload::Fund(FundPayload { recipient, token: TOKEN, amount: 1_000 });
    let id = w.create(proposer, "Fund", "Allocate", ProposalType::FundAllocation, payload).unwrap();

    w.advance(VOTING_DELAY + 1);
    w.vote(voter, id, true).unwrap();
    w.advance(VOTING_PERIOD);
    w.finalize(id).unwrap();
    w.advance(TIMELOCK_DELAY + 1);
    w.execute(id).unwrap();

    assert_eq!(w.balance(TOKEN, recipient), 1_000);
}

// ── Cancellation ────────────────────────────────────────────────────────────────

#[test]
fn test_proposer_can_cancel() {
    let mut w = setup();
    let proposer = w.account();
    w.mint(proposer, THRESHOLD);
    let id = w.create_text(proposer);

    w.gov.cancel_proposal(proposer, id, &mut w.events).unwrap();
    assert_eq!(w.gov.get_proposal(id).unwrap().status, ProposalStatus::Cancelled);
}

#[test]
fn test_admin_can_cancel() {
    let mut w = setup();
    let proposer = w.account();
    w.mint(proposer, THRESHOLD);
    let id = w.create_text(proposer);

    w.gov.cancel_proposal(ADMIN, id, &mut w.events).unwrap();
    assert_eq!(w.gov.get_proposal(id).unwrap().status, ProposalStatus::Cancelled);
}

#[test]
fn test_stranger_cannot_cancel() {
    let mut w = setup();
    let proposer = w.account();
    let stranger = w.account();
    w.mint(proposer, THRESHOLD);
    let id = w.create_text(proposer);

    let result = w.gov.cancel_proposal(stranger, id, &mut w.events);
    assert!(result.is_err());
}

// ── Configuration ───────────────────────────────────────────────────────────────

#[test]
fn test_admin_can_update_config() {
    let mut w = setup();
    let mut config = w.gov.get_config().unwrap();
    config.quorum_bps = 1_000;
    w.gov.update_config(ADMIN, config).unwrap();
    assert_eq!(w.gov.get_config().unwrap().quorum_bps, 1_000);
}

#[test]
fn test_non_admin_cannot_update_config() {
    let mut w = setup();
    let stranger = w.account();
    let config = w.gov.get_config().unwrap();
    assert!(w.gov.update_config(stranger, config).is_err());
}

// ── Parameter change ────────────────────────────────────────────────────────────

#[test]
fn test_parameter_change_proposal_full_lifecycle() {
    let mut w = setup();
    let proposer = w.account();
    let voter = w.account();
    w.mint(proposer, THRESHOLD);
    w.mint(voter, 10_000);

    let payload = ProposalPayload::Parameter(ParameterPayload { key: b"platform_fee_bps".to_vec(), value: 200 });
    let id = w
        .create(proposer, "Lower platform fee", "Reduce fee from 1.5% to 2%", ProposalType::ParameterChange, payload)
        .unwrap();

    w.advance(VOTING_DELAY + 1);
    w.vote(voter, id, true).unwrap();
    w.advance(VOTING_PERIOD);
    w.finalize(id).unwrap();
    w.advance(TIMELOCK_DELAY + 1);
    w.execute(id).unwrap();

    assert_eq!(w.gov.get_proposal(id).unwrap().status, ProposalStatus::Executed);
}

// ── Further cases ───────────────────────────────────────────────────────────────

fn proposal_with_votes(votes_for: i128, votes_against: i128, snapshot: i128) -> Proposal {
    Proposal {
        id: 0,
        proposal_type: ProposalType::TextProposal,
        proposer: 5,
        title: Vec::new(),
        description: Vec::new(),
        payload: ProposalPayload::Text,
        status: ProposalStatus::Active,
        vote_start: 0,
        vote_end: 0,
        executable_at: 0,
        votes_for,
        votes_against,
        total_supply_snapshot: snapshot,
        created_at: 0,
        executed_at: None,
    }
}

fn config(quorum_bps: u32, approval_threshold_bps: u32) -> GovConfig {
    GovConfig {
        token: TOKEN,
        proposal_threshold: THRESHOLD,
        voting_period: VOTING_PERIOD,
        voting_delay: VOTING_DELAY,
        timelock_delay: TIMELOCK_DELAY,
        quorum_bps,
        approval_threshold_bps,
    }
}

#[test]
fn evaluate_quorum_and_threshold_boundaries() {
    // quorum: 10 000 * 400 / 10 000 = 400 votes
    assert!(evaluate(&proposal_with_votes(400, 0, 10_000), &config(400, 5_100)));
    assert!(!evaluate(&proposal_with_votes(399, 0, 10_000), &config(400, 5_100)));
    // approval: 1 000 * 5 100 / 10 000 = 510 votes for
    assert!(evaluate(&proposal_with_votes(510, 490, 10_000), &config(400, 5_100)));
    assert!(!evaluate(&proposal_with_votes(509, 491, 10_000), &config(400, 5_100)));
    // with a zero quorum and no vote cast, both inequalities hold
    assert!(evaluate(&proposal_with_votes(0, 0, 0), &config(0, 0)));
    assert!(!evaluate(&proposal_with_votes(0, 0, 10_000), &config(400, 5_100)));
}

#[test]
fn one_vote_per_address_whatever_the_side() {
    let mut w = setup();
    let proposer = w.account();
    let voter = w.account();
    w.mint(proposer, THRESHOLD);
    w.mint(voter, 1_000);
    let id = w.create_text(proposer);
    w.advance(VOTING_DELAY + 1);
    w.vote(voter, id, true).unwrap();
    assert_eq!(w.vote(voter, id, true), Err(GovError::AlreadyVoted));
    assert_eq!(w.vote(voter, id, false), Err(GovError::AlreadyVoted));
    assert_eq!(w.gov.get_proposal(id).unwrap().votes_for, 1_000);
}

#[test]
fn proposal_errors_each_have_their_input() {
    let mut fresh = GovernanceContract::new(TREASURY);
    let mut events: Vec<GovEvent> = Vec::new();
    assert_eq!(
        fresh.create_proposal(0, 5, Vec::new(), Vec::new(), ProposalType::TextProposal, ProposalPayload::Text, 1, 100, &mut events),
        Err(GovError::NotInitialized)
    );
    assert_eq!(fresh.initialize(ADMIN, TOKEN, 1, 0, 0, 0, 0, 0), Err(GovError::InvalidDuration));
    assert_eq!(fresh.initialize(ADMIN, TOKEN, 1, 0, 1, 0, 10_001, 0), Err(GovError::InvalidParameter));

    let mut w = setup();
    let proposer = w.account();
    w.mint(proposer, THRESHOLD);
    assert_eq!(w.gov.get_proposal(7).err(), Some(GovError::ProposalNotFound));
    let power = w.balance(TOKEN, proposer);
    assert_eq!(
        w.gov.create_proposal(0, proposer, Vec::new(), Vec::new(), ProposalType::TextProposal, ProposalPayload::Text, -1, power, &mut w.events),
        Err(GovError::InvalidParameter)
    );
    let id = w.create_text(proposer);
    assert_eq!(w.vote(proposer, id, true), Err(GovError::VotingNotStarted));
    w.advance(VOTING_DELAY + 1);
    let nobody = w.account();
    assert_eq!(w.vote(nobody, id, true), Err(GovError::InsufficientVotingPower));
    assert_eq!(w.finalize(id), Err(GovError::VotingClosed));
    assert_eq!(w.execute(id), Err(GovError::ProposalNotPassed));
    w.advance(VOTING_PERIOD);
    assert_eq!(w.vote(proposer, id, true), Err(GovError::VotingClosed));
    assert_eq!(w.finalize(id), Ok(ProposalStatus::Defeated));
    assert_eq!(w.finalize(id), Err(GovError::ProposalNotActive));
    assert_eq!(w.gov.update_config(ADMIN, config(400, 10_001)), Err(GovError::InvalidParameter));
    assert_eq!(w.gov.update_config(w.next_account, config(400, 5_100)), Err(GovError::AdminOnly));
}

#[test]
fn executed_proposal_is_final() {
    let (mut w, id) = queued_text_proposal();
    assert_eq!(w.execute(id), Err(GovError::TimelockNotElapsed));
    w.advance(TIMELOCK_DELAY + 1);
    w.execute(id).unwrap();
    assert_eq!(w.execute(id), Err(GovError::ProposalNotPassed));
    assert_eq!(w.gov.cancel_proposal(ADMIN, id, &mut w.events), Err(GovError::ProposalAlreadyExecuted));
    assert_eq!(w.gov.get_proposal(id).unwrap().status, ProposalStatus::Executed);
}

#[test]
fn events_record_the_lifecycle() {
    let (mut w, id) = queued_text_proposal();
    w.advance(TIMELOCK_DELAY + 1);
    w.execute(id).unwrap();
    assert_eq!(w.events.len(), 4);
    assert!(matches!(w.events[0], GovEvent::ProposalCreated { proposal_id: 0, .. }));
    assert!(matches!(w.events[1], GovEvent::VoteCast { proposal_id: 0, support: true, power: 10_000, .. }));
    let p = w.gov.get_proposal(id).unwrap();
    assert_eq!(w.events[2], GovEvent::ProposalQueued { proposal_id: 0, executable_at: p.executable_at });
    assert_eq!(w.events[3], GovEvent::ProposalExecuted { proposal_id: 0 });
    assert_eq!(p.vote_start, VOTING_DELAY);
    assert_eq!(p.vote_end, VOTING_DELAY + VOTING_PERIOD);
    assert_eq!(p.executable_at, VOTING_DELAY + VOTING_PERIOD + TIMELOCK_DELAY);
}

#[test]
fn voting_power_is_the_balance_once_initialized() {
    let fresh = GovernanceContract::new(TREASURY);
    assert_eq!(fresh.voting_power(50), Err(GovError::NotInitialized));
    let w = setup();
    assert_eq!(w.gov.voting_power(50), Ok(50));
    assert_eq!(w.gov.proposal_count(), 0);
    assert!(!w.gov.has_voted(0, 5));
}

#[test]
fn more_votes_in_favour_keep_a_pass() {
    let c = config(400, 5_100);
    assert!(evaluate(&proposal_with_votes(510, 490, 10_000), &c));
    for extra in [1, 10, 490, 10_000] {
        assert!(evaluate(&proposal_with_votes(510 + extra, 490, 10_000), &c));
    }
    // a failing proposal can be carried by more votes in favour
    assert!(!evaluate(&proposal_with_votes(300, 0, 10_000), &c));
    assert!(evaluate(&proposal_with_votes(400, 0, 10_000), &c));
}

#[test]
fn range_tests_of_governance_accept_ordinary_calls() {
    let mut w = setup();
    let proposer = w.account();
    let voter = w.account();
    w.mint(proposer, THRESHOLD);
    w.mint(voter, 1_000);
    assert!(w.gov.proposal_fits(w.now, THRESHOLD, ProposalType::TextProposal, &ProposalPayload::Text, 10_000));
    assert!(!w.gov.proposal_fits(u64::MAX - 10, THRESHOLD, ProposalType::TextProposal, &ProposalPayload::Text, 10_000));
    let id = w.create_text(proposer);
    w.advance(VOTING_DELAY + 1);
    assert!(w.gov.vote_fits_at(w.now, voter, id, true, 1_000));
    w.vote(voter, id, true).unwrap();
    let whale = w.account();
    assert!(!w.gov.vote_fits_at(w.now, whale, id, true, i128::MAX));
    assert!(w.gov.vote_fits_at(w.now, whale, id, false, i128::MAX));
    w.advance(VOTING_PERIOD);
    assert!(w.gov.finalization_fits(w.now, id));
}
