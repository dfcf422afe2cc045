//! The governance contract: proposals, one vote per holder, quorum and
//! approval evaluation, timelocked execution.
//!
//! Each entry point takes the ledger time `now` and, where a token balance
//! decides, that balance as read by the host; it publishes its events to an
//! outbox, and a treasury payout to a transfer outbox. A refused call leaves
//! state and outboxes as they were.

use vstd::prelude::*;
use std::collections::{HashMap, HashSet};
use crate::escrow::{lemma_view_insert, lemma_view_remove};
use crate::escrow_views::copy_vec;
use crate::gov_errors::GovError;
use crate::gov_events::{
    GovEvent, emit_proposal_cancelled, emit_proposal_created, emit_proposal_defeated,
    emit_proposal_executed, emit_proposal_queued, emit_vote_cast,
};
use crate::gov_types::{
    FundPayload, GovConfig, ParameterPayload, Proposal, ProposalPayload, ProposalPayloadView,
    ProposalStatus, ProposalType, ProposalView,
};
use crate::rent::trunc_div;
use crate::types::{AccountId, Transfer};

verus! {

broadcast use vstd::std_specs::hash::group_hash_axioms;

/// Basis points in one whole.
pub const BPS_DENOMINATOR: i128 = 10_000i128;

// ── State ──────────────────────────────────────────────────────────────────────

/// The governance contract: its instance entries, its proposals, and the
/// voters recorded for each proposal.
pub struct GovernanceContract {
    /// Address of the contract itself: the treasury that fund allocations pay from.
    pub contract_address: AccountId,
    pub admin: Option<AccountId>,
    pub config: Option<GovConfig>,
    pub proposal_counter: Option<u64>,
    pub proposals: HashMap<u64, Proposal>,
    pub ballots: HashMap<u64, HashSet<AccountId>>,
}

pub struct GovernanceView {
    pub contract_address: AccountId,
    pub admin: Option<AccountId>,
    pub config: Option<GovConfig>,
    pub proposal_counter: Option<u64>,
    pub proposals: Map<u64, ProposalView>,
    pub ballots: Map<u64, Set<AccountId>>,
}

impl View for GovernanceContract {
    type V = GovernanceView;

    open spec fn view(&self) -> GovernanceView {
        GovernanceView {
            contract_address: self.contract_address,
            admin: self.admin,
            config: self.config,
            proposal_counter: self.proposal_counter,
            proposals: self.proposals@.map_values(|p: Proposal| p@),
            ballots: self.ballots@.map_values(|b: HashSet<AccountId>| b@),
        }
    }
}

/// Parameters that `initialize` and `update_config` accept.
pub open spec fn config_valid(c: GovConfig) -> bool {
    &&& c.voting_period > 0
    &&& c.quorum_bps <= 10_000
    &&& c.approval_threshold_bps <= 10_000
}

impl GovernanceView {
    /// Number of proposals created (the counter, 0 when unset).
    pub open spec fn count(self) -> u64 {
        match self.proposal_counter {
            Some(c) => c,
            None => 0,
        }
    }

    /// Whether `voter` has voted on proposal `id`.
    pub open spec fn voted(self, id: u64, voter: AccountId) -> bool {
        self.ballots.contains_key(id) && self.ballots[id].contains(voter)
    }

    /// The configuration and the proposals are consistent: the admin and the
    /// configuration are written together, the configuration is valid, each
    /// proposal is stored under its own id, below the counter, its vote opens
    /// before it closes and closes before execution may start, and ballots
    /// belong to stored proposals.
    pub open spec fn wf(self) -> bool {
        &&& (self.admin is Some <==> self.config is Some)
        &&& (self.config is Some ==> config_valid(self.config->0))
        &&& (self.admin is None ==> self.proposal_counter is None)
        &&& forall|id: u64| #[trigger] self.proposals.contains_key(id) ==> {
                &&& self.proposals[id].id == id
                &&& id < self.count()
                &&& self.proposals[id].vote_start <= self.proposals[id].vote_end
                &&& self.proposals[id].vote_end <= self.proposals[id].executable_at
            }
        &&& forall|id: u64| #[trigger] self.ballots.contains_key(id) ==> self.proposals.contains_key(id)
    }
}

/// The result of a governance entry point that succeeds: what it returns, the
/// state it leaves, the events it publishes and the transfers it asks for.
pub struct GovStep<V> {
    pub value: V,
    pub state: GovernanceView,
    pub events: Seq<GovEvent>,
    pub transfers: Seq<Transfer>,
}

/// A call's result, state, event outbox and transfer outbox are those that `o`
/// prescribes: on success the step, on failure the error with nothing changed.
pub open spec fn gov_follows<V>(
    r: Result<V, GovError>,
    o: Result<GovStep<V>, GovError>,
    s0: GovernanceView,
    s1: GovernanceView,
    e0: Seq<GovEvent>,
    e1: Seq<GovEvent>,
    t0: Seq<Transfer>,
    t1: Seq<Transfer>,
) -> bool {
    match o {
        Ok(step) => {
            &&& r == Ok::<V, GovError>(step.value)
            &&& s1 == step.state
            &&& e1 == e0 + step.events
            &&& t1 == t0 + step.transfers
        },
        Err(e) => r == Err::<V, GovError>(e) && s1 == s0 && e1 == e0 && t1 == t0,
    }
}

/// A successful step that publishes `events` and moves no tokens.
pub open spec fn quiet_step<V>(value: V, state: GovernanceView, events: Seq<GovEvent>) -> GovStep<V> {
    GovStep { value, state, events, transfers: Seq::empty() }
}

// ── Quorum and approval ────────────────────────────────────────────────────────

/// Votes a proposal needs in total: its share `quorum_bps` of the supply snapshot.
pub open spec fn quorum_required(p: ProposalView, c: GovConfig) -> int {
    trunc_div(p.total_supply_snapshot * c.quorum_bps, 10_000)
}

/// Votes in favour a proposal needs: its share `approval_threshold_bps` of the votes cast.
pub open spec fn approval_required(p: ProposalView, c: GovConfig) -> int {
    trunc_div((p.votes_for + p.votes_against) * c.approval_threshold_bps, 10_000)
}

/// A proposal passes when the votes cast reach the quorum and the votes in
/// favour reach the approval threshold.
pub open spec fn passes(p: ProposalView, c: GovConfig) -> bool {
    let total = p.votes_for + p.votes_against;
    &&& total >= quorum_required(p, c)
    &&& p.votes_for >= approval_required(p, c)
}

/// The quorum and approval arithmetic stays within `i128`.
pub open spec fn evaluate_fits(p: ProposalView, c: GovConfig) -> bool {
    let total = p.votes_for + p.votes_against;
    &&& i128::MIN <= total <= i128::MAX
    &&& i128::MIN <= p.total_supply_snapshot * c.quorum_bps <= i128::MAX
    &&& i128::MIN <= total * c.approval_threshold_bps <= i128::MAX
}

/// Whether a proposal has reached quorum and its approval threshold.
pub fn evaluate(proposal: &Proposal, config: &GovConfig) -> (r: bool)
    requires
        evaluate_fits(proposal@, *config),
    ensures
        r == passes(proposal@, *config),
{
    let total_votes = proposal.votes_for + proposal.votes_against;
    let quorum = proposal.total_supply_snapshot * (config.quorum_bps as i128) / BPS_DENOMINATOR;
    if total_votes < quorum {
        return false;
    }
    let threshold = total_votes * (config.approval_threshold_bps as i128) / BPS_DENOMINATOR;
    proposal.votes_for >= threshold
}

// ── Entry point outcomes ───────────────────────────────────────────────────────

/// The configuration that `initialize` records.
pub open spec fn make_config(
    token: AccountId,
    proposal_threshold: i128,
    voting_delay: u64,
    voting_period: u64,
    timelock_delay: u64,
    quorum_bps: u32,
    approval_threshold_bps: u32,
) -> GovConfig {
    GovConfig {
        token,
        proposal_threshold,
        voting_period,
        voting_delay,
        timelock_delay,
        quorum_bps,
        approval_threshold_bps,
    }
}

/// Outcome of `initialize`.
pub open spec fn gov_initialize_spec(s: GovernanceView, admin: AccountId, c: GovConfig) -> Result<GovernanceView, GovError> {
    if s.admin is Some {
        Err(GovError::AlreadyInitialized)
    } else if c.voting_period == 0 {
        Err(GovError::InvalidDuration)
    } else if c.quorum_bps > 10_000 || c.approval_threshold_bps > 10_000 {
        Err(GovError::InvalidParameter)
    } else {
        Ok(GovernanceView { admin: Some(admin), config: Some(c), proposal_counter: Some(0u64), ..s })
    }
}

/// A call that changes only the state: `r` and the state after are what `o` prescribes.
pub open spec fn gov_follows_state(
    r: Result<(), GovError>,
    o: Result<GovernanceView, GovError>,
    s0: GovernanceView,
    s1: GovernanceView,
) -> bool {
    match o {
        Ok(s) => r is Ok && s1 == s,
        Err(e) => r == Err::<(), GovError>(e) && s1 == s0,
    }
}

impl GovernanceContract {
    /// A fresh, uninitialized contract deployed at `contract_address`.
    pub fn new(contract_address: AccountId) -> (r: Self)
        ensures
            r@.contract_address == contract_address,
            r@.admin is None,
            r@.config is None,
            r@.proposal_counter is None,
            r@.proposals == Map::<u64, ProposalView>::empty(),
            r@.ballots == Map::<u64, Set<AccountId>>::empty(),
            r@.wf(),
    {
        let r = GovernanceContract {
            contract_address,
            admin: None,
            config: None,
            proposal_counter: None,
            proposals: HashMap::new(),
            ballots: HashMap::new(),
        };
        proof {
            assert(r@.proposals =~= Map::<u64, ProposalView>::empty());
            assert(r@.ballots =~= Map::<u64, Set<AccountId>>::empty());
        }
        r
    }

    /// Initializes the contract with its admin and its parameters.
    pub fn initialize(
        &mut self,
        admin: AccountId,
        token: AccountId,
        proposal_threshold: i128,
        voting_delay: u64,
        voting_period: u64,
        timelock_delay: u64,
        quorum_bps: u32,
        approval_threshold_bps: u32,
    ) -> (r: Result<(), GovError>)
        requires
            old(self)@.wf(),
        ensures
            final(self)@.wf(),
            gov_follows_state(
                r,
                gov_initialize_spec(
                    old(self)@,
                    admin,
                    make_config(token, proposal_threshold, voting_delay, voting_period, timelock_delay, quorum_bps, approval_threshold_bps),
                ),
                old(self)@,
                final(self)@,
            ),
    {
        if self.admin.is_some() {
            return Err(GovError::AlreadyInitialized);
        }
        if voting_period == 0 {
            return Err(GovError::InvalidDuration);
        }
        if quorum_bps > 10_000 || approval_threshold_bps > 10_000 {
            return Err(GovError::InvalidParameter);
        }
        let config = GovConfig {
            token,
            proposal_threshold,
            voting_period,
            voting_delay,
            timelock_delay,
            quorum_bps,
            approval_threshold_bps,
        };
        self.admin = Some(admin);
        self.config = Some(config);
        self.proposal_counter = Some(0u64);
        Ok(())
    }
}

// ── Proposals ──────────────────────────────────────────────────────────────────

/// Whether a payload carries the data that a proposal of type `t` executes.
pub open spec fn payload_matches(t: ProposalType, p: ProposalPayloadView) -> bool {
    match p {
        ProposalPayloadView::Parameter { .. } => t == ProposalType::ParameterChange,
        ProposalPayloadView::Upgrade(_) => t == ProposalType::ContractUpgrade,
        ProposalPayloadView::Fund(_) => t == ProposalType::FundAllocation,
        ProposalPayloadView::Text => t == ProposalType::TextProposal,
    }
}

/// The checks of `create_proposal` before any arithmetic, in the order the
/// contract makes them; on success, the configuration in force.
pub open spec fn create_checks(s: GovernanceView, power: i128, t: ProposalType, payload: ProposalPayloadView) -> Result<GovConfig, GovError> {
    if s.admin is None {
        Err(GovError::NotInitialized)
    } else if s.config is None {
        Err(GovError::NotInitialized)
    } else if power < s.config->0.proposal_threshold {
        Err(GovError::InsufficientVotingPower)
    } else if !payload_matches(t, payload) {
        Err(GovError::InvalidProposalType)
    } else {
        Ok(s.config->0)
    }
}

/// Creating a proposal at `now` involves no overflow: the vote window and the
/// execution time fit in `u64`, and so does the next proposal id.
pub open spec fn create_fits(s: GovernanceView, now: u64, power: i128, t: ProposalType, payload: ProposalPayloadView, supply_snapshot: i128) -> bool {
    match create_checks(s, power, t, payload) {
        Ok(c) => {
            &&& now + c.voting_delay + c.voting_period + c.timelock_delay <= u64::MAX
            &&& supply_snapshot >= 0 ==> s.count() < u64::MAX
        },
        Err(_) => true,
    }
}

/// The proposal that `create_proposal` records.
pub open spec fn new_proposal(
    id: u64,
    c: GovConfig,
    now: u64,
    proposer: AccountId,
    title: Seq<u8>,
    description: Seq<u8>,
    t: ProposalType,
    payload: ProposalPayloadView,
    supply_snapshot: i128,
) -> ProposalView {
    ProposalView {
        id,
        proposal_type: t,
        proposer,
        title,
        description,
        payload,
        status: ProposalStatus::Active,
        vote_start: (now + c.voting_delay) as u64,
        vote_end: (now + c.voting_delay + c.voting_period) as u64,
        executable_at: (now + c.voting_delay + c.voting_period + c.timelock_delay) as u64,
        votes_for: 0,
        votes_against: 0,
        total_supply_snapshot: supply_snapshot,
        created_at: now,
        executed_at: None,
    }
}

/// Outcome of `create_proposal` by a proposer holding `power` tokens.
pub open spec fn create_proposal_spec(
    s: GovernanceView,
    now: u64,
    proposer: AccountId,
    title: Seq<u8>,
    description: Seq<u8>,
    t: ProposalType,
    payload: ProposalPayloadView,
    supply_snapshot: i128,
    power: i128,
) -> Result<GovStep<u64>, GovError> {
    match create_checks(s, power, t, payload) {
        Err(e) => Err(e),
        Ok(c) => if supply_snapshot < 0 {
            Err(GovError::InvalidParameter)
        } else {
            let id = s.count();
            let p = new_proposal(id, c, now, proposer, title, description, t, payload, supply_snapshot);
            Ok(quiet_step(
                id,
                GovernanceView {
                    proposal_counter: Some((id + 1) as u64),
                    proposals: s.proposals.insert(id, p),
                    ..s
                },
                seq![GovEvent::ProposalCreated { proposal_id: id, proposer }],
            ))
        },
    }
}

/// Whether `payload` carries the data that a proposal of type `t` executes.
pub fn payload_fits_type(t: ProposalType, payload: &ProposalPayload) -> (r: bool)
    ensures
        r == payload_matches(t, payload@),
{
    match payload {
        ProposalPayload::Parameter(_) => t == ProposalType::ParameterChange,
        ProposalPayload::Upgrade(_) => t == ProposalType::ContractUpgrade,
        ProposalPayload::Fund(_) => t == ProposalType::FundAllocation,
        ProposalPayload::Text => t == ProposalType::TextProposal,
    }
}

/// Copy of a proposal payload.
pub fn copy_payload(p: &ProposalPayload) -> (r: ProposalPayload)
    ensures
        r@ == p@,
{
    match p {
        ProposalPayload::Parameter(pp) => ProposalPayload::Parameter(ParameterPayload { key: copy_vec(&pp.key), value: pp.value }),
        ProposalPayload::Upgrade(u) => ProposalPayload::Upgrade(*u),
        ProposalPayload::Fund(f) => ProposalPayload::Fund(*f),
        ProposalPayload::Text => ProposalPayload::Text,
    }
}

/// Copy of a proposal.
pub fn copy_proposal(p: &Proposal) -> (r: Proposal)
    ensures
        r@ == p@,
{
    Proposal {
        id: p.id,
        proposal_type: p.proposal_type,
        proposer: p.proposer,
        title: copy_vec(&p.title),
        description: copy_vec(&p.description),
        payload: copy_payload(&p.payload),
        status: p.status,
        vote_start: p.vote_start,
        vote_end: p.vote_end,
        executable_at: p.executable_at,
        votes_for: p.votes_for,
        votes_against: p.votes_against,
        total_supply_snapshot: p.total_supply_snapshot,
        created_at: p.created_at,
        executed_at: p.executed_at,
    }
}

impl GovernanceContract {
    /// Stores `p` under `id`.
    fn put_proposal(&mut self, id: u64, p: Proposal)
        ensures
            final(self)@ == (GovernanceView { proposals: old(self)@.proposals.insert(id, p@), ..old(self)@ }),
    {
        self.proposals.insert(id, p);
        proof {
            lemma_view_insert(old(self).proposals@, id, p);
        }
    }

    /// Takes the stored proposal `id` out.
    fn take_proposal(&mut self, id: u64) -> (r: Proposal)
        requires
            old(self)@.proposals.contains_key(id),
        ensures
            r@ == old(self)@.proposals[id],
            final(self)@ == (GovernanceView { proposals: old(self)@.proposals.remove(id), ..old(self)@ }),
    {
        let r = self.proposals.remove(&id);
        proof {
            lemma_view_remove(old(self).proposals@, id);
        }
        r.unwrap()
    }
}

// ── Voting ─────────────────────────────────────────────────────────────────────

/// The checks of `cast_vote`, in the order the contract makes them; on
/// success, the proposal voted on.
pub open spec fn vote_checks(s: GovernanceView, now: u64, voter: AccountId, id: u64, power: i128) -> Result<ProposalView, GovError> {
    if s.admin is None {
        Err(GovError::NotInitialized)
    } else if !s.proposals.contains_key(id) {
        Err(GovError::ProposalNotFound)
    } else if s.proposals[id].status != ProposalStatus::Active {
        Err(GovError::ProposalNotActive)
    } else if now < s.proposals[id].vote_start {
        Err(GovError::VotingNotStarted)
    } else if now > s.proposals[id].vote_end {
        Err(GovError::VotingClosed)
    } else if s.voted(id, voter) {
        Err(GovError::AlreadyVoted)
    } else if s.config is None {
        Err(GovError::NotInitialized)
    } else if power <= 0 {
        Err(GovError::InsufficientVotingPower)
    } else {
        Ok(s.proposals[id])
    }
}

/// The tally that a vote adds to stays within `i128`.
pub open spec fn vote_fits(s: GovernanceView, now: u64, voter: AccountId, id: u64, support: bool, power: i128) -> bool {
    match vote_checks(s, now, voter, id, power) {
        Ok(p) => if support { p.votes_for + power <= i128::MAX } else { p.votes_against + power <= i128::MAX },
        Err(_) => true,
    }
}

/// A proposal with a vote of `power` added for or against it.
pub open spec fn tally(p: ProposalView, support: bool, power: i128) -> ProposalView {
    if support {
        ProposalView { votes_for: (p.votes_for + power) as i128, ..p }
    } else {
        ProposalView { votes_against: (p.votes_against + power) as i128, ..p }
    }
}

/// Voters recorded for proposal `id`, `voter` added.
pub open spec fn ballot_with(s: GovernanceView, id: u64, voter: AccountId) -> Set<AccountId> {
    if s.ballots.contains_key(id) { s.ballots[id].insert(voter) } else { Set::empty().insert(voter) }
}

/// Outcome of `cast_vote` by a voter holding `power` tokens.
pub open spec fn cast_vote_spec(s: GovernanceView, now: u64, voter: AccountId, id: u64, support: bool, power: i128) -> Result<GovStep<()>, GovError> {
    match vote_checks(s, now, voter, id, power) {
        Err(e) => Err(e),
        Ok(p) => Ok(quiet_step(
            (),
            GovernanceView {
                proposals: s.proposals.insert(id, tally(p, support, power)),
                ballots: s.ballots.insert(id, ballot_with(s, id, voter)),
                ..s
            },
            seq![GovEvent::VoteCast { proposal_id: id, voter, support, power }],
        )),
    }
}

impl GovernanceContract {
    /// Creates a proposal; `power` is the proposer's token balance.
    pub fn create_proposal(
        &mut self,
        now: u64,
        proposer: AccountId,
        title: Vec<u8>,
        description: Vec<u8>,
        proposal_type: ProposalType,
        payload: ProposalPayload,
        supply_snapshot: i128,
        power: i128,
        events: &mut Vec<GovEvent>,
    ) -> (r: Result<u64, GovError>)
        requires
            old(self)@.wf(),
            create_fits(old(self)@, now, power, proposal_type, payload@, supply_snapshot),
        ensures
            final(self)@.wf(),
            gov_follows(
                r,
                create_proposal_spec(old(self)@, now, proposer, title@, description@, proposal_type, payload@, supply_snapshot, power),
                old(self)@,
                final(self)@,
                old(events)@,
                final(events)@,
                Seq::empty(),
                Seq::empty(),
            ),
    {
        if self.admin.is_none() {
            return Err(GovError::NotInitialized);
        }
        let config = match self.config {
            Some(c) => c,
            None => return Err(GovError::NotInitialized),
        };
        if power < config.proposal_threshold {
            return Err(GovError::InsufficientVotingPower);
        }
        if !payload_fits_type(proposal_type, &payload) {
            return Err(GovError::InvalidProposalType);
        }
        let vote_start = now + config.voting_delay;
        let vote_end = vote_start + config.voting_period;
        let executable_at = vote_end + config.timelock_delay;
        if supply_snapshot < 0 {
            return Err(GovError::InvalidParameter);
        }
        let id: u64 = match self.proposal_counter {
            Some(c) => c,
            None => 0,
        };
        self.proposal_counter = Some(id + 1);
        let proposal = Proposal {
            id,
            proposal_type,
            proposer,
            title,
            description,
            payload,
            status: ProposalStatus::Active,
            vote_start,
            vote_end,
            executable_at,
            votes_for: 0,
            votes_against: 0,
            total_supply_snapshot: supply_snapshot,
            created_at: now,
            executed_at: None,
        };
        self.put_proposal(id, proposal);
        emit_proposal_created(events, id, proposer);
        proof {
            assert(final(events)@ =~= old(events)@ + seq![GovEvent::ProposalCreated { proposal_id: id, proposer }]);
        }
        Ok(id)
    }

    /// Casts a vote for (`support`) or against a proposal; `power` is the
    /// voter's token balance. Each voter votes once per proposal.
    pub fn cast_vote(
        &mut self,
        now: u64,
        voter: AccountId,
        proposal_id: u64,
        support: bool,
        power: i128,
        events: &mut Vec<GovEvent>,
    ) -> (r: Result<(), GovError>)
        requires
            old(self)@.wf(),
            vote_fits(old(self)@, now, voter, proposal_id, support, power),
        ensures
            final(self)@.wf(),
            gov_follows(
                r,
                cast_vote_spec(old(self)@, now, voter, proposal_id, support, power),
                old(self)@,
                final(self)@,
                old(events)@,
                final(events)@,
                Seq::empty(),
                Seq::empty(),
            ),
    {
        if self.admin.is_none() {
            return Err(GovError::NotInitialized);
        }
        let (status, vote_start, vote_end) = match self.proposals.get(&proposal_id) {
            None => return Err(GovError::ProposalNotFound),
            Some(p) => (p.status, p.vote_start, p.vote_end),
        };
        if status != ProposalStatus::Active {
            return Err(GovError::ProposalNotActive);
        }
        if now < vote_start {
            return Err(GovError::VotingNotStarted);
        }
        if now > vote_end {
            return Err(GovError::VotingClosed);
        }
        let already = match self.ballots.get(&proposal_id) {
            Some(b) => b.contains(&voter),
            None => false,
        };
        if already {
            return Err(GovError::AlreadyVoted);
        }
        if self.config.is_none() {
            return Err(GovError::NotInitialized);
        }
        if power <= 0 {
            return Err(GovError::InsufficientVotingPower);
        }
        let ghost s0 = self@;
        let mut proposal = self.take_proposal(proposal_id);
        if support {
            proposal.votes_for = proposal.votes_for + power;
        } else {
            proposal.votes_against = proposal.votes_against + power;
        }
        self.put_proposal(proposal_id, proposal);
        proof {
            assert(self@.proposals =~= s0.proposals.insert(proposal_id, tally(s0.proposals[proposal_id], support, power)));
        }
        let mut ballot = match self.ballots.remove(&proposal_id) {
            Some(b) => b,
            None => HashSet::new(),
        };
        ballot.insert(voter);
        self.ballots.insert(proposal_id, ballot);
        proof {
            assert(self.ballots@.map_values(|b: HashSet<AccountId>| b@) =~= s0.ballots.insert(proposal_id, ballot_with(s0, proposal_id, voter)));
        }
        emit_vote_cast(events, proposal_id, voter, support, power);
        proof {
            assert(final(events)@ =~= old(events)@ + seq![GovEvent::VoteCast { proposal_id, voter, support, power }]);
        }
        Ok(())
    }
}

// ── Finalization, execution, cancellation ──────────────────────────────────────

/// The checks of `finalize_proposal`, in the order the contract makes them; on
/// success, the proposal and the configuration in force.
pub open spec fn finalize_checks(s: GovernanceView, now: u64, id: u64) -> Result<(ProposalView, GovConfig), GovError> {
    if s.admin is None {
        Err(GovError::NotInitialized)
    } else if !s.proposals.contains_key(id) {
        Err(GovError::ProposalNotFound)
    } else if s.proposals[id].status != ProposalStatus::Active {
        Err(GovError::ProposalNotActive)
    } else if now <= s.proposals[id].vote_end {
        Err(GovError::VotingClosed)
    } else if s.config is None {
        Err(GovError::NotInitialized)
    } else {
        Ok((s.proposals[id], s.config->0))
    }
}

/// The evaluation that finalizing performs stays within `i128`.
pub open spec fn finalize_fits(s: GovernanceView, now: u64, id: u64) -> bool {
    match finalize_checks(s, now, id) {
        Ok((p, c)) => evaluate_fits(p, c),
        Err(_) => true,
    }
}

/// Outcome of `finalize_proposal`: a proposal that passes is queued for
/// execution, any other is defeated.
pub open spec fn finalize_spec(s: GovernanceView, now: u64, id: u64) -> Result<GovStep<ProposalStatus>, GovError> {
    match finalize_checks(s, now, id) {
        Err(e) => Err(e),
        Ok((p, c)) => {
            let status = if passes(p, c) { ProposalStatus::Queued } else { ProposalStatus::Defeated };
            let event = if passes(p, c) {
                GovEvent::ProposalQueued { proposal_id: id, executable_at: p.executable_at }
            } else {
                GovEvent::ProposalDefeated { proposal_id: id }
            };
            Ok(quiet_step(
                status,
                GovernanceView { proposals: s.proposals.insert(id, ProposalView { status, ..p }), ..s },
                seq![event],
            ))
        },
    }
}

/// Tokens that executing a proposal moves: a fund allocation pays its
/// recipient from the contract's treasury; other proposals move nothing.
pub open spec fn payout(s: GovernanceView, p: ProposalView) -> Seq<Transfer> {
    match p.payload {
        ProposalPayloadView::Fund(f) => seq![Transfer { token: f.token, from: s.contract_address, to: f.recipient, amount: f.amount }],
        _ => Seq::empty(),
    }
}

/// Outcome of `execute_proposal`: a queued proposal whose timelock has
/// elapsed is executed.
pub open spec fn execute_spec(s: GovernanceView, now: u64, id: u64) -> Result<GovStep<()>, GovError> {
    if s.admin is None {
        Err(GovError::NotInitialized)
    } else if !s.proposals.contains_key(id) {
        Err(GovError::ProposalNotFound)
    } else if s.proposals[id].status != ProposalStatus::Queued {
        Err(GovError::ProposalNotPassed)
    } else if now < s.proposals[id].executable_at {
        Err(GovError::TimelockNotElapsed)
    } else {
        let p = s.proposals[id];
        Ok(GovStep {
            value: (),
            state: GovernanceView {
                proposals: s.proposals.insert(id, ProposalView { status: ProposalStatus::Executed, executed_at: Some(now), ..p }),
                ..s
            },
            events: seq![GovEvent::ProposalExecuted { proposal_id: id }],
            transfers: payout(s, p),
        })
    }
}

/// Outcome of `cancel_proposal`: the proposer or the admin cancels any
/// proposal that has not been executed.
pub open spec fn cancel_spec(s: GovernanceView, caller: AccountId, id: u64) -> Result<GovStep<()>, GovError> {
    if s.admin is None {
        Err(GovError::NotInitialized)
    } else if !s.proposals.contains_key(id) {
        Err(GovError::ProposalNotFound)
    } else if caller != s.proposals[id].proposer && caller != s.admin->0 {
        Err(GovError::Unauthorized)
    } else if s.proposals[id].status == ProposalStatus::Executed {
        Err(GovError::ProposalAlreadyExecuted)
    } else {
        Ok(quiet_step(
            (),
            GovernanceView {
                proposals: s.proposals.insert(id, ProposalView { status: ProposalStatus::Cancelled, ..s.proposals[id] }),
                ..s
            },
            seq![GovEvent::ProposalCancelled { proposal_id: id, by: caller }],
        ))
    }
}

/// Outcome of `update_config`: the admin replaces the parameters with valid ones.
pub open spec fn update_config_spec(s: GovernanceView, caller: AccountId, c: GovConfig) -> Result<GovernanceView, GovError> {
    if s.admin is None {
        Err(GovError::NotInitialized)
    } else if caller != s.admin->0 {
        Err(GovError::AdminOnly)
    } else if c.voting_period == 0 {
        Err(GovError::InvalidDuration)
    } else if c.quorum_bps > 10_000 || c.approval_threshold_bps > 10_000 {
        Err(GovError::InvalidParameter)
    } else {
        Ok(GovernanceView { config: Some(c), ..s })
    }
}

impl GovernanceContract {
    /// Finalizes a proposal once its vote has ended: queued when it reached
    /// quorum and approval, defeated otherwise. Returns the new status.
    pub fn finalize_proposal(&mut self, now: u64, proposal_id: u64, events: &mut Vec<GovEvent>) -> (r: Result<ProposalStatus, GovError>)
        requires
            old(self)@.wf(),
            finalize_fits(old(self)@, now, proposal_id),
        ensures
            final(self)@.wf(),
            gov_follows(
                r,
                finalize_spec(old(self)@, now, proposal_id),
                old(self)@,
                final(self)@,
                old(events)@,
                final(events)@,
                Seq::empty(),
                Seq::empty(),
            ),
    {
        if self.admin.is_none() {
            return Err(GovError::NotInitialized);
        }
        let (status, vote_end) = match self.proposals.get(&proposal_id) {
            None => return Err(GovError::ProposalNotFound),
            Some(p) => (p.status, p.vote_end),
        };
        if status != ProposalStatus::Active {
            return Err(GovError::ProposalNotActive);
        }
        if now <= vote_end {
            return Err(GovError::VotingClosed);
        }
        let config = match self.config {
            Some(c) => c,
            None => return Err(GovError::NotInitialized),
        };
        let ghost s0 = self@;
        let mut proposal = self.take_proposal(proposal_id);
        let passed = evaluate(&proposal, &config);
        let executable_at = proposal.executable_at;
        if passed {
            proposal.status = ProposalStatus::Queued;
        } else {
            proposal.status = ProposalStatus::Defeated;
        }
        let new_status = proposal.status;
        self.put_proposal(proposal_id, proposal);
        proof {
            assert(self@.proposals =~= s0.proposals.insert(proposal_id, ProposalView { status: new_status, ..s0.proposals[proposal_id] }));
        }
        if passed {
            emit_proposal_queued(events, proposal_id, executable_at);
            proof {
                assert(final(events)@ =~= old(events)@ + seq![GovEvent::ProposalQueued { proposal_id, executable_at }]);
            }
        } else {
            emit_proposal_defeated(events, proposal_id);
            proof {
                assert(final(events)@ =~= old(events)@ + seq![GovEvent::ProposalDefeated { proposal_id }]);
            }
        }
        Ok(new_status)
    }

    /// Executes a queued proposal once its timelock has elapsed; a fund
    /// allocation pays its recipient from the treasury.
    pub fn execute_proposal(
        &mut self,
        now: u64,
        proposal_id: u64,
        events: &mut Vec<GovEvent>,
        transfers: &mut Vec<Transfer>,
    ) -> (r: Result<(), GovError>)
        requires
            old(self)@.wf(),
        ensures
            final(self)@.wf(),
            gov_follows(
                r,
                execute_spec(old(self)@, now, proposal_id),
                old(self)@,
                final(self)@,
                old(events)@,
                final(events)@,
                old(transfers)@,
                final(transfers)@,
            ),
    {
        if self.admin.is_none() {
            return Err(GovError::NotInitialized);
        }
        let (status, executable_at) = match self.proposals.get(&proposal_id) {
            None => return Err(GovError::ProposalNotFound),
            Some(p) => (p.status, p.executable_at),
        };
        if status != ProposalStatus::Queued {
            return Err(GovError::ProposalNotPassed);
        }
        if now < executable_at {
            return Err(GovError::TimelockNotElapsed);
        }
        let ghost s0 = self@;
        let mut proposal = self.take_proposal(proposal_id);
        match &proposal.payload {
            ProposalPayload::Fund(f) => {
                transfers.push(Transfer { token: f.token, from: self.contract_address, to: f.recipient, amount: f.amount });
            },
            _ => {},
        }
        proof {
            assert(final(transfers)@ =~= old(transfers)@ + payout(s0, s0.proposals[proposal_id]));
        }
        proposal.status = ProposalStatus::Executed;
        proposal.executed_at = Some(now);
        self.put_proposal(proposal_id, proposal);
        proof {
            assert(self@.proposals =~= s0.proposals.insert(
                proposal_id,
                ProposalView { status: ProposalStatus::Executed, executed_at: Some(now), ..s0.proposals[proposal_id] },
            ));
        }
        emit_proposal_executed(events, proposal_id);
        proof {
            assert(final(events)@ =~= old(events)@ + seq![GovEvent::ProposalExecuted { proposal_id }]);
        }
        Ok(())
    }

    /// The proposer or the admin cancels a proposal that has not been executed.
    pub fn cancel_proposal(&mut self, caller: AccountId, proposal_id: u64, events: &mut Vec<GovEvent>) -> (r: Result<(), GovError>)
        requires
            old(self)@.wf(),
        ensures
            final(self)@.wf(),
            gov_follows(
                r,
                cancel_spec(old(self)@, caller, proposal_id),
                old(self)@,
                final(self)@,
                old(events)@,
                final(events)@,
                Seq::empty(),
                Seq::empty(),
            ),
    {
        let admin = match self.admin {
            Some(a) => a,
            None => return Err(GovError::NotInitialized),
        };
        let (proposer, status) = match self.proposals.get(&proposal_id) {
            None => return Err(GovError::ProposalNotFound),
            Some(p) => (p.proposer, p.status),
        };
        if caller != proposer && caller != admin {
            return Err(GovError::Unauthorized);
        }
        if status == ProposalStatus::Executed {
            return Err(GovError::ProposalAlreadyExecuted);
        }
        let ghost s0 = self@;
        let mut proposal = self.take_proposal(proposal_id);
        proposal.status = ProposalStatus::Cancelled;
        self.put_proposal(proposal_id, proposal);
        proof {
            assert(self@.proposals =~= s0.proposals.insert(
                proposal_id,
                ProposalView { status: ProposalStatus::Cancelled, ..s0.proposals[proposal_id] },
            ));
        }
        emit_proposal_cancelled(events, proposal_id, caller);
        proof {
            assert(final(events)@ =~= old(events)@ + seq![GovEvent::ProposalCancelled { proposal_id, by: caller }]);
        }
        Ok(())
    }

    /// The admin replaces the governance parameters.
    pub fn update_config(&mut self, caller: AccountId, new_config: GovConfig) -> (r: Result<(), GovError>)
        requires
            old(self)@.wf(),
        ensures
            final(self)@.wf(),
            gov_follows_state(r, update_config_spec(old(self)@, caller, new_config), old(self)@, final(self)@),
    {
        let admin = match self.admin {
            Some(a) => a,
            None => return Err(GovError::NotInitialized),
        };
        if caller != admin {
            return Err(GovError::AdminOnly);
        }
        if new_config.voting_period == 0 {
            return Err(GovError::InvalidDuration);
        }
        if new_config.quorum_bps > 10_000 || new_config.approval_threshold_bps > 10_000 {
            return Err(GovError::InvalidParameter);
        }
        self.config = Some(new_config);
        Ok(())
    }

    // ── Reads ──────────────────────────────────────────────────────────────────

    /// A proposal by id.
    pub fn get_proposal(&self, proposal_id: u64) -> (r: Result<Proposal, GovError>)
        ensures
            self@.admin is None ==> r == Err::<Proposal, GovError>(GovError::NotInitialized),
            self@.admin is Some && !self@.proposals.contains_key(proposal_id)
                ==> r == Err::<Proposal, GovError>(GovError::ProposalNotFound),
            self@.admin is Some && self@.proposals.contains_key(proposal_id)
                ==> r is Ok && r->Ok_0@ == self@.proposals[proposal_id],
    {
        if self.admin.is_none() {
            return Err(GovError::NotInitialized);
        }
        match self.proposals.get(&proposal_id) {
            None => Err(GovError::ProposalNotFound),
            Some(p) => Ok(copy_proposal(p)),
        }
    }

    /// The governance parameters in force.
    pub fn get_config(&self) -> (r: Result<GovConfig, GovError>)
        ensures
            match (self@.admin, self@.config) {
                (Some(_), Some(c)) => r == Ok::<GovConfig, GovError>(c),
                _ => r == Err::<GovConfig, GovError>(GovError::NotInitialized),
            },
    {
        if self.admin.is_none() {
            return Err(GovError::NotInitialized);
        }
        match self.config {
            Some(c) => Ok(c),
            None => Err(GovError::NotInitialized),
        }
    }

    /// Number of proposals created.
    pub fn proposal_count(&self) -> (r: u64)
        ensures
            r == self@.count(),
    {
        match self.proposal_counter {
            Some(c) => c,
            None => 0,
        }
    }

    /// Whether `voter` has voted on proposal `proposal_id`.
    pub fn has_voted(&self, proposal_id: u64, voter: AccountId) -> (r: bool)
        ensures
            r == self@.voted(proposal_id, voter),
    {
        match self.ballots.get(&proposal_id) {
            Some(b) => b.contains(&voter),
            None => false,
        }
    }

    /// Voting power of an account: its token balance `balance`, once the
    /// contract is initialized.
    pub fn voting_power(&self, balance: i128) -> (r: Result<i128, GovError>)
        ensures
            match (self@.admin, self@.config) {
                (Some(_), Some(_)) => r == Ok::<i128, GovError>(balance),
                _ => r == Err::<i128, GovError>(GovError::NotInitialized),
            },
    {
        if self.admin.is_none() {
            return Err(GovError::NotInitialized);
        }
        if self.config.is_none() {
            return Err(GovError::NotInitialized);
        }
        Ok(balance)
    }
}

} // verus!
