//! Errors of the governance contract.

use vstd::prelude::*;

verus! {

/// Every way a governance entry point can refuse a call.
#[derive(Clone, Copy, Debug, PartialEq, Eq, Structural)]
pub enum GovError {
    AlreadyInitialized,
    NotInitialized,
    Unauthorized,
    AdminOnly,
    ProposalNotFound,
    ProposalNotActive,
    ProposalNotPassed,
    ProposalAlreadyExecuted,
    ProposalExpired,
    TimelockNotElapsed,
    InvalidProposalType,
    EmptyDescription,
    AlreadyVoted,
    VotingClosed,
    VotingNotStarted,
    InsufficientVotingPower,
    QuorumNotReached,
    ThresholdNotReached,
    InvalidParameter,
    InvalidDuration,
}

} // verus!
