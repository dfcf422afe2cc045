//! Data types of the escrow contract.
//!
//! Accounts (client, freelancer, token contracts, the escrow contract itself)
//! are identified by an `AccountId`; 32-byte content hashes by `Hash32`; on-chain
//! strings are byte strings.

use vstd::prelude::*;

verus! {

/// Identifier of an account or contract on the ledger.
pub type AccountId = u64;

/// A 32-byte content hash (an IPFS digest, a wasm hash).
pub type Hash32 = [u8; 32];

/// Lifecycle state of an escrow.
#[derive(Clone, Copy, Debug, PartialEq, Eq, Structural)]
pub enum EscrowStatus {
    Active,
    Completed,
    Disputed,
    Cancelled,
    CancellationPending,
}

/// Milestone status, one bit per state.
pub type MilestoneStatus = u32;

pub const MS_PENDING: u32 = 1u32;
pub const MS_SUBMITTED: u32 = 2u32;
pub const MS_APPROVED: u32 = 4u32;
pub const MS_REJECTED: u32 = 8u32;
pub const MS_RELEASED: u32 = 16u32;
pub const MS_DISPUTED: u32 = 32u32;

/// A release window that starts at `start_ledger` and lasts `duration_ledger` seconds.
#[derive(Clone, Copy, Debug, PartialEq, Eq, Structural)]
pub struct Timelock {
    pub duration_ledger: u64,
    pub start_ledger: u64,
}

/// One approval of a milestone by a buyer signer.
#[derive(Clone, Copy, Debug, PartialEq, Eq, Structural)]
pub struct ApprovalRecord {
    pub approver: AccountId,
    pub approved_at: u64,
}

/// A unit of work of an escrow, paid out on approval.
#[derive(Debug)]
pub struct Milestone {
    pub id: u32,
    pub title: Vec<u8>,
    pub description_hash: Hash32,
    pub amount: i128,
    pub status: MilestoneStatus,
    pub submitted_at: Option<u64>,
    pub resolved_at: Option<u64>,
    pub approvals: Vec<ApprovalRecord>,
    pub rejection_reason: Option<Hash32>,
}

/// Header of an escrow, stored apart from its milestones.
#[derive(Debug)]
pub struct EscrowMeta {
    pub escrow_id: u64,
    pub client: AccountId,
    pub freelancer: AccountId,
    pub token: AccountId,
    pub total_amount: i128,
    /// Running sum of the amounts of the milestones added so far.
    pub allocated_amount: i128,
    pub remaining_balance: i128,
    pub status: EscrowStatus,
    pub milestone_count: u32,
    pub approved_count: u32,
    pub released_count: u32,
    pub submitted_count: u32,
    pub arbiter: Option<AccountId>,
    pub buyer_signers: Vec<AccountId>,
    pub created_at: u64,
    pub deadline: Option<u64>,
    /// Funds stay locked until this time, when set.
    pub lock_time: Option<u64>,
    /// Latest value to which `lock_time` may be extended, when set.
    pub lock_time_extension: Option<u64>,
    pub timelock: Option<Timelock>,
    pub brief_hash: Hash32,
    /// Prepaid storage rent held by the contract in the escrow token.
    pub rent_balance: i128,
    /// Time of the last rent collection checkpoint.
    pub last_rent_collection_at: u64,
}

/// Full view of an escrow, header and milestones together.
#[derive(Debug)]
pub struct EscrowState {
    pub escrow_id: u64,
    pub client: AccountId,
    pub freelancer: AccountId,
    pub token: AccountId,
    pub total_amount: i128,
    pub remaining_balance: i128,
    pub status: EscrowStatus,
    pub milestones: Vec<Milestone>,
    pub arbiter: Option<AccountId>,
    pub buyer_signers: Vec<AccountId>,
    pub created_at: u64,
    pub deadline: Option<u64>,
    pub lock_time: Option<u64>,
    pub lock_time_extension: Option<u64>,
    pub timelock: Option<Timelock>,
    pub brief_hash: Hash32,
    pub multisig_approvers: Vec<AccountId>,
    pub multisig_weights: Vec<u32>,
    pub multisig_threshold: u32,
}

/// Multisig settings accepted by `create_escrow` (carried, not acted on).
#[derive(Debug)]
pub struct MultisigConfig {
    pub approvers: Vec<AccountId>,
    pub weights: Vec<u32>,
    pub threshold: u32,
}

/// Spacing of the payments of a recurring escrow.
#[derive(Clone, Copy, Debug, PartialEq, Eq, Structural)]
pub enum RecurringInterval {
    Daily,
    Weekly,
    Monthly,
}

/// Schedule of a recurring escrow.
#[derive(Clone, Copy, Debug, PartialEq, Eq, Structural)]
pub struct RecurringPaymentConfig {
    pub interval: RecurringInterval,
    pub payment_amount: i128,
    pub start_time: u64,
    pub next_payment_at: u64,
    pub end_date: Option<u64>,
    pub total_payments: u32,
    pub payments_remaining: u32,
    pub processed_payments: u32,
    pub paused: bool,
    pub cancelled: bool,
    pub paused_at: Option<u64>,
    pub last_payment_at: Option<u64>,
}

/// Summary of a recurring schedule.
#[derive(Clone, Copy, Debug, PartialEq, Eq, Structural)]
pub struct RecurringScheduleStatus {
    pub is_active: bool,
    pub is_paused: bool,
    pub is_cancelled: bool,
    pub next_payment_at: u64,
    pub payments_remaining: u32,
    pub payment_amount: i128,
}

/// On-chain reputation of an account.
#[derive(Clone, Copy, Debug, PartialEq, Eq, Structural)]
pub struct ReputationRecord {
    pub address: AccountId,
    pub total_score: u64,
    pub completed_escrows: u32,
    pub disputed_escrows: u32,
    pub disputes_won: u32,
    pub total_volume: i128,
    pub slash_count: u32,
    pub total_slashed: i128,
    pub last_updated: u64,
}

/// A pending request to cancel an escrow.
#[derive(Debug)]
pub struct CancellationRequest {
    pub escrow_id: u64,
    pub requester: AccountId,
    pub reason: Vec<u8>,
    pub requested_at: u64,
    pub dispute_deadline: u64,
    pub disputed: bool,
    pub counterparty_approved: bool,
}

/// A slash held by the contract until it is finalized or reversed.
#[derive(Debug)]
pub struct SlashRecord {
    pub escrow_id: u64,
    pub slashed_user: AccountId,
    pub recipient: AccountId,
    pub amount: i128,
    pub reason: Vec<u8>,
    pub slashed_at: u64,
    pub disputed: bool,
}

/// A call submitted on behalf of `signer`.
#[derive(Debug)]
pub struct MetaTransaction {
    pub signer: AccountId,
    pub nonce: u64,
    pub deadline: u64,
    pub function_name: Vec<u8>,
    pub function_args: Vec<u8>,
    pub signature: [u8; 64],
}

/// A bridged token registered with the contract; only an approved one may
/// fund an escrow.
#[derive(Clone, Copy, Debug, PartialEq, Eq, Structural)]
pub struct WrappedTokenInfo {
    /// The token's address on this ledger.
    pub stellar_address: AccountId,
    /// Identifier of the chain the token is bridged from.
    pub origin_chain: u32,
    pub is_approved: bool,
}

/// A token movement that an entry point asks the host to perform.
#[derive(Clone, Copy, Debug, PartialEq, Eq, Structural)]
pub struct Transfer {
    pub token: AccountId,
    pub from: AccountId,
    pub to: AccountId,
    pub amount: i128,
}

/// Keys of the contract's instance and per-account entries.
#[derive(Clone, Copy, Debug, PartialEq, Eq, Structural)]
pub enum DataKey {
    Admin,
    EscrowCounter,
    Escrow(u64),
    Reputation(AccountId),
    CancellationRequest(u64),
    SlashRecord(u64),
    MetaTxNonce(AccountId),
    Paused,
    MaxMilestones,
    MigrationCursor,
}

/// Keys of the granular per-escrow entries.
#[derive(Clone, Copy, Debug, PartialEq, Eq, Structural)]
pub enum PackedDataKey {
    EscrowMeta(u64),
    Milestone(u64, u32),
    RecurringConfig(u64),
}

} // verus!
