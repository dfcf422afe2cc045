//! Properties of the governance contract that span its entry points.

use vstd::prelude::*;
use crate::gov_errors::GovError;
use crate::gov_types::{GovConfig, ProposalPayloadView, ProposalStatus, ProposalType, ProposalView};
use crate::governance::{
    GovStep, GovernanceView, cancel_spec, cast_vote_spec, create_proposal_spec, execute_spec,
    approval_required, finalize_spec, passes, quorum_required,
};
use crate::rent::trunc_div;
use crate::types::{AccountId, Transfer};

verus! {

/// Each address votes at most once per proposal: once a vote is counted, any
/// further vote by the same address on that proposal is refused, whatever
/// its time, side or power, and as `AlreadyVoted` while the vote is open (a
/// refused vote changes nothing, as `cast_vote`'s contract says).
pub proof fn law_one_vote_per_address(
    s: GovernanceView,
    now: u64,
    voter: AccountId,
    id: u64,
    support: bool,
    power: i128,
    now2: u64,
    support2: bool,
    power2: i128,
)
    requires
        cast_vote_spec(s, now, voter, id, support, power) is Ok,
    ensures
        ({
            let s1 = cast_vote_spec(s, now, voter, id, support, power)->Ok_0.state;
            &&& s1.voted(id, voter)
            &&& cast_vote_spec(s1, now2, voter, id, support2, power2) is Err
            &&& s1.proposals[id].vote_start <= now2 <= s1.proposals[id].vote_end
                ==> cast_vote_spec(s1, now2, voter, id, support2, power2)
                    == Err::<GovStep<()>, GovError>(GovError::AlreadyVoted)
        }),
{
}

/// A vote is counted only on an active proposal while its vote is open, and
/// adds the voter's power to exactly one side of the tally.
pub proof fn law_vote_tally(s: GovernanceView, now: u64, voter: AccountId, id: u64, support: bool, power: i128)
    requires
        cast_vote_spec(s, now, voter, id, support, power) is Ok,
        support ==> s.proposals[id].votes_for + power <= i128::MAX,
        !support ==> s.proposals[id].votes_against + power <= i128::MAX,
    ensures
        ({
            let p0 = s.proposals[id];
            let p1 = cast_vote_spec(s, now, voter, id, support, power)->Ok_0.state.proposals[id];
            &&& power > 0
            &&& p0.status == ProposalStatus::Active
            &&& p0.vote_start <= now <= p0.vote_end
            &&& p1.votes_for + p1.votes_against == p0.votes_for + p0.votes_against + power
            &&& support ==> p1.votes_for == p0.votes_for + power && p1.votes_against == p0.votes_against
            &&& !support ==> p1.votes_against == p0.votes_against + power && p1.votes_for == p0.votes_for
        }),
{
}

/// Proposal ids are handed out in sequence; only a holder of at least the
/// proposal threshold creates one; a new proposal records the supply snapshot
/// and opens its vote after the voting delay, for the voting period,
/// executable after the timelock.
pub proof fn law_proposal_ids_sequential(
    s: GovernanceView,
    now: u64,
    proposer: AccountId,
    title: Seq<u8>,
    description: Seq<u8>,
    t: ProposalType,
    payload: ProposalPayloadView,
    supply_snapshot: i128,
    power: i128,
)
    requires
        s.count() < u64::MAX,
        create_proposal_spec(s, now, proposer, title, description, t, payload, supply_snapshot, power) is Ok,
        s.config is Some ==> now + s.config->0.voting_delay + s.config->0.voting_period + s.config->0.timelock_delay <= u64::MAX,
    ensures
        ({
            let step = create_proposal_spec(s, now, proposer, title, description, t, payload, supply_snapshot, power)->Ok_0;
            let c = s.config->0;
            let p = step.state.proposals[step.value];
            &&& step.value == s.count()
            &&& step.state.count() == s.count() + 1
            &&& p.status == ProposalStatus::Active
            &&& p.vote_start == now + c.voting_delay
            &&& p.vote_end == p.vote_start + c.voting_period
            &&& p.executable_at == p.vote_end + c.timelock_delay
            &&& p.votes_for == 0 && p.votes_against == 0
            &&& p.total_supply_snapshot == supply_snapshot
            &&& power >= c.proposal_threshold
        }),
{
}

/// A vote cannot be finalized while it is open: before the end of its voting
/// period an active proposal is refused finalization.
pub proof fn law_no_finalize_while_open(s: GovernanceView, now: u64, id: u64)
    requires
        s.admin is Some,
        s.proposals.contains_key(id),
        s.proposals[id].status == ProposalStatus::Active,
        now <= s.proposals[id].vote_end,
    ensures
        finalize_spec(s, now, id) == Err::<GovStep<ProposalStatus>, GovError>(GovError::VotingClosed),
{
}

/// Finalizing queues exactly the proposals that reach quorum and approval.
pub proof fn law_finalize_outcome(s: GovernanceView, now: u64, id: u64)
    requires
        finalize_spec(s, now, id) is Ok,
    ensures
        ({
            let step = finalize_spec(s, now, id)->Ok_0;
            &&& (step.value == ProposalStatus::Queued) == passes(s.proposals[id], s.config->0)
            &&& (step.value == ProposalStatus::Defeated) == !passes(s.proposals[id], s.config->0)
            &&& step.state.proposals[id].status == step.value
        }),
{
}

/// Only a queued proposal whose timelock has elapsed is executed, and it is
/// executed once: executing it again is refused.
pub proof fn law_execute_once(s: GovernanceView, now: u64, id: u64, now2: u64)
    requires
        execute_spec(s, now, id) is Ok,
    ensures
        s.proposals[id].status == ProposalStatus::Queued,
        now >= s.proposals[id].executable_at,
        execute_spec(execute_spec(s, now, id)->Ok_0.state, now2, id)
            == Err::<GovStep<()>, GovError>(GovError::ProposalNotPassed),
{
}

/// Execution is final: no entry point moves an executed proposal out of the
/// executed state, and cancelling it is refused.
pub proof fn law_executed_is_final(
    s: GovernanceView,
    now: u64,
    caller: AccountId,
    voter: AccountId,
    id: u64,
    support: bool,
    power: i128,
)
    requires
        s.proposals.contains_key(id),
        s.proposals[id].status == ProposalStatus::Executed,
    ensures
        cancel_spec(s, caller, id) is Err,
        cast_vote_spec(s, now, voter, id, support, power) is Err,
        finalize_spec(s, now, id) is Err,
        execute_spec(s, now, id) is Err,
{
}

/// Floor division keeps the order when `y` exceeds `x` by at most `d` whole
/// denominators.
proof fn lemma_div_within(x: int, y: int, d: int, n: int)
    requires
        x >= 0,
        y >= 0,
        d >= 0,
        n > 0,
        y <= x + d * n,
    ensures
        y / n <= x / n + d,
{
    vstd::arithmetic::div_mod::lemma_fundamental_div_mod(x, n);
    vstd::arithmetic::div_mod::lemma_fundamental_div_mod(y, n);
    let qx = x / n;
    let qy = y / n;
    assert(qy <= qx + d) by (nonlinear_arith)
        requires
            x == n * qx + x % n,
            y == n * qy + y % n,
            0 <= x % n < n,
            0 <= y % n < n,
            y <= x + d * n,
            n > 0;
}

/// More votes in favour never turn a passing proposal into a failing one.
pub proof fn law_evaluate_monotone_in_support(p: ProposalView, c: GovConfig, d: int)
    requires
        c.approval_threshold_bps <= 10_000,
        p.votes_for >= 0,
        p.votes_against >= 0,
        d >= 0,
        p.votes_for + d <= i128::MAX,
        passes(p, c),
    ensures
        passes(ProposalView { votes_for: (p.votes_for + d) as i128, ..p }, c),
{
    let p2 = ProposalView { votes_for: (p.votes_for + d) as i128, ..p };
    let t = p.votes_for + p.votes_against;
    let a = c.approval_threshold_bps as int;
    assert(quorum_required(p2, c) == quorum_required(p, c));
    assert(t * a >= 0) by (nonlinear_arith)
        requires t >= 0, a >= 0;
    assert((t + d) * a >= 0) by (nonlinear_arith)
        requires t >= 0, d >= 0, a >= 0;
    assert((t + d) * a <= t * a + d * 10_000) by (nonlinear_arith)
        requires d >= 0, 0 <= a <= 10_000;
    lemma_div_within(t * a, (t + d) * a, d, 10_000);
    assert(approval_required(p2, c) == ((t + d) * a) / 10_000);
    assert(approval_required(p, c) == (t * a) / 10_000);
}

/// A proposal passes exactly when every vote cast, for or against, reaches
/// the quorum share of the supply snapshot, and the votes in favour reach the
/// approval share of the votes cast.
pub proof fn law_passes_counts_every_vote(p: ProposalView, c: GovConfig)
    ensures
        passes(p, c) == (
            p.votes_for + p.votes_against >= trunc_div(p.total_supply_snapshot * c.quorum_bps, 10_000)
            && p.votes_for >= trunc_div((p.votes_for + p.votes_against) * c.approval_threshold_bps, 10_000)),
{
}

/// Finalizing a proposal whose vote has closed queues it when the votes cast,
/// for and against together, reach the quorum and the votes in favour reach
/// the approval threshold of the votes cast; otherwise it is defeated.
pub proof fn law_finalize_counts_every_vote(s: GovernanceView, now: u64, id: u64)
    requires
        s.admin is Some,
        s.config is Some,
        s.proposals.contains_key(id),
        s.proposals[id].status == ProposalStatus::Active,
        now > s.proposals[id].vote_end,
    ensures
        ({
            let p = s.proposals[id];
            let c = s.config->0;
            let cast = p.votes_for + p.votes_against;
            let reached = cast >= trunc_div(p.total_supply_snapshot * c.quorum_bps, 10_000)
                && p.votes_for >= trunc_div(cast * c.approval_threshold_bps, 10_000);
            &&& finalize_spec(s, now, id) is Ok
            &&& finalize_spec(s, now, id)->Ok_0.value == (if reached { ProposalStatus::Queued } else { ProposalStatus::Defeated })
            &&& finalize_spec(s, now, id)->Ok_0.state.proposals[id].status == finalize_spec(s, now, id)->Ok_0.value
        }),
{
}

/// Executing a fund allocation pays its recipient the allocated amount of
/// its token from the treasury, and nothing else; executing any other
/// proposal moves no tokens. The proposal is then executed, stamped with
/// the time of execution.
pub proof fn law_execute_pays_the_allocation(s: GovernanceView, now: u64, id: u64)
    requires
        execute_spec(s, now, id) is Ok,
    ensures
        ({
            let step = execute_spec(s, now, id)->Ok_0;
            let p = s.proposals[id];
            &&& step.state.proposals[id].status == ProposalStatus::Executed
            &&& step.state.proposals[id].executed_at == Some(now)
            &&& step.state.proposals[id].votes_for == p.votes_for
            &&& step.state.proposals[id].votes_against == p.votes_against
            &&& match p.payload {
                ProposalPayloadView::Fund(f) => step.transfers == seq![
                    Transfer { token: f.token, from: s.contract_address, to: f.recipient, amount: f.amount }],
                _ => step.transfers.len() == 0,
            }
        }),
{
}

} // verus!
