//! Events published by the governance contract.

use vstd::prelude::*;
use crate::types::AccountId;

verus! {

/// An event of the governance contract.
#[derive(Clone, Copy, Debug, PartialEq, Eq, Structural)]
pub enum GovEvent {
    ProposalCreated { proposal_id: u64, proposer: AccountId },
    VoteCast { proposal_id: u64, voter: AccountId, support: bool, power: i128 },
    ProposalQueued { proposal_id: u64, executable_at: u64 },
    ProposalExecuted { proposal_id: u64 },
    ProposalCancelled { proposal_id: u64, by: AccountId },
    ProposalDefeated { proposal_id: u64 },
}

/// Publishes the creation of a proposal.
pub fn emit_proposal_created(events: &mut Vec<GovEvent>, proposal_id: u64, proposer: AccountId)
    ensures
        final(events)@ == old(events)@.push(GovEvent::ProposalCreated { proposal_id, proposer }),
{
    events.push(GovEvent::ProposalCreated { proposal_id, proposer });
}

/// Publishes a vote.
pub fn emit_vote_cast(events: &mut Vec<GovEvent>, proposal_id: u64, voter: AccountId, support: bool, power: i128)
    ensures
        final(events)@ == old(events)@.push(GovEvent::VoteCast { proposal_id, voter, support, power }),
{
    events.push(GovEvent::VoteCast { proposal_id, voter, support, power });
}

/// Publishes that a proposal passed and is queued for execution.
pub fn emit_proposal_queued(events: &mut Vec<GovEvent>, proposal_id: u64, executable_at: u64)
    ensures
        final(events)@ == old(events)@.push(GovEvent::ProposalQueued { proposal_id, executable_at }),
{
    events.push(GovEvent::ProposalQueued { proposal_id, executable_at });
}

/// Publishes the execution of a proposal.
pub fn emit_proposal_executed(events: &mut Vec<GovEvent>, proposal_id: u64)
    ensures
        final(events)@ == old(events)@.push(GovEvent::ProposalExecuted { proposal_id }),
{
    events.push(GovEvent::ProposalExecuted { proposal_id });
}

/// Publishes the cancellation of a proposal.
pub fn emit_proposal_cancelled(events: &mut Vec<GovEvent>, proposal_id: u64, by: AccountId)
    ensures
        final(events)@ == old(events)@.push(GovEvent::ProposalCancelled { proposal_id, by }),
{
    events.push(GovEvent::ProposalCancelled { proposal_id, by });
}

/// Publishes the defeat of a proposal.
pub fn emit_proposal_defeated(events: &mut Vec<GovEvent>, proposal_id: u64)
    ensures
        final(events)@ == old(events)@.push(GovEvent::ProposalDefeated { proposal_id }),
{
    events.push(GovEvent::ProposalDefeated { proposal_id });
}

} // verus!
