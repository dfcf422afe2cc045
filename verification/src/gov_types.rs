//! Data types of the governance contract.

use vstd::prelude::*;
use crate::types::{AccountId, Hash32};

verus! {

/// Governance parameters.
#[derive(Clone, Copy, Debug, PartialEq, Eq, Structural)]
pub struct GovConfig {
    /// Token whose balance is voting power.
    pub token: AccountId,
    /// Least voting power needed to create a proposal.
    pub proposal_threshold: i128,
    /// Seconds the vote stays open.
    pub voting_period: u64,
    /// Seconds between creation and the start of the vote.
    pub voting_delay: u64,
    /// Seconds between the end of the vote and execution.
    pub timelock_delay: u64,
    /// Quorum, in basis points of the supply snapshot.
    pub quorum_bps: u32,
    /// Share of the votes cast that must be in favour, in basis points.
    pub approval_threshold_bps: u32,
}

/// Kind of action a proposal asks for.
#[derive(Clone, Copy, Debug, PartialEq, Eq, Structural)]
pub enum ProposalType {
    ParameterChange,
    ContractUpgrade,
    FundAllocation,
    TextProposal,
}

/// Lifecycle state of a proposal.
#[derive(Clone, Copy, Debug, PartialEq, Eq, Structural)]
pub enum ProposalStatus {
    Active,
    Queued,
    Defeated,
    Executed,
    Cancelled,
}

/// New value for a named protocol parameter.
#[derive(Debug)]
pub struct ParameterPayload {
    pub key: Vec<u8>,
    pub value: i128,
}

/// Code upgrade that governance approves for a target contract.
#[derive(Clone, Copy, Debug)]
pub struct UpgradePayload {
    pub target: AccountId,
    pub wasm_hash: Hash32,
}

/// Treasury transfer.
#[derive(Clone, Copy, Debug, PartialEq, Eq, Structural)]
pub struct FundPayload {
    pub recipient: AccountId,
    pub token: AccountId,
    pub amount: i128,
}

/// Execution data of a proposal, matching its type.
#[derive(Debug)]
pub enum ProposalPayload {
    Parameter(ParameterPayload),
    Upgrade(UpgradePayload),
    Fund(FundPayload),
    Text,
}

/// A governance proposal.
#[derive(Debug)]
pub struct Proposal {
    pub id: u64,
    pub proposal_type: ProposalType,
    pub proposer: AccountId,
    pub title: Vec<u8>,
    pub description: Vec<u8>,
    pub payload: ProposalPayload,
    pub status: ProposalStatus,
    pub vote_start: u64,
    pub vote_end: u64,
    pub executable_at: u64,
    pub votes_for: i128,
    pub votes_against: i128,
    pub total_supply_snapshot: i128,
    pub created_at: u64,
    pub executed_at: Option<u64>,
}

/// A ballot.
#[derive(Clone, Copy, Debug, PartialEq, Eq, Structural)]
pub struct Vote {
    pub voter: AccountId,
    pub support: bool,
    pub power: i128,
}

/// Keys of the governance contract's entries.
#[derive(Clone, Copy, Debug, PartialEq, Eq, Structural)]
pub enum GovDataKey {
    Admin,
    Config,
    ProposalCounter,
    Proposal(u64),
    HasVoted(u64, AccountId),
}

pub enum ProposalPayloadView {
    Parameter { key: Seq<u8>, value: i128 },
    Upgrade(UpgradePayload),
    Fund(FundPayload),
    Text,
}

impl View for ProposalPayload {
    type V = ProposalPayloadView;

    open spec fn view(&self) -> ProposalPayloadView {
        match self {
            ProposalPayload::Parameter(p) => ProposalPayloadView::Parameter { key: p.key@, value: p.value },
            ProposalPayload::Upgrade(u) => ProposalPayloadView::Upgrade(*u),
            ProposalPayload::Fund(f) => ProposalPayloadView::Fund(*f),
            ProposalPayload::Text => ProposalPayloadView::Text,
        }
    }
}

pub struct ProposalView {
    pub id: u64,
    pub proposal_type: ProposalType,
    pub proposer: AccountId,
    pub title: Seq<u8>,
    pub description: Seq<u8>,
    pub payload: ProposalPayloadView,
    pub status: ProposalStatus,
    pub vote_start: u64,
    pub vote_end: u64,
    pub executable_at: u64,
    pub votes_for: i128,
    pub votes_against: i128,
    pub total_supply_snapshot: i128,
    pub created_at: u64,
    pub executed_at: Option<u64>,
}

impl View for Proposal {
    type V = ProposalView;

    open spec fn view(&self) -> ProposalView {
        ProposalView {
            id: self.id,
            proposal_type: self.proposal_type,
            proposer: self.proposer,
            title: self.title@,
            description: self.description@,
            payload: self.payload@,
            status: self.status,
            vote_start: self.vote_start,
            vote_end: self.vote_end,
            executable_at: self.executable_at,
            votes_for: self.votes_for,
            votes_against: self.votes_against,
            total_supply_snapshot: self.total_supply_snapshot,
            created_at: self.created_at,
            executed_at: self.executed_at,
        }
    }
}

} // verus!
