//! Errors of the escrow contract.

use vstd::prelude::*;

verus! {

/// Every way an escrow entry point can refuse a call.
#[derive(Clone, Copy, Debug, PartialEq, Eq, Structural)]
pub enum EscrowError {
    AlreadyInitialized,
    NotInitialized,
    Unauthorized,
    AdminOnly,
    ClientOnly,
    FreelancerOnly,
    EscrowNotFound,
    MilestoneNotFound,
    EscrowNotActive,
    EscrowNotDisputed,
    InvalidEscrowAmount,
    InvalidMilestoneAmount,
    InvalidMilestoneState,
    MilestoneAmountExceedsEscrow,
    TooManyMilestones,
    StringTooLong,
    AmountMismatch,
    InvalidDeadline,
    InvalidLockTime,
    InvalidLockTimeExtension,
    LockTimeNotExpired,
    InvalidTimelockDuration,
    TimelockNotExpired,
    TimelockAlreadyActive,
    DisputeAlreadyExists,
    CannotCancelWithPendingFunds,
    ContractPaused,
    RecurringConfigNotFound,
    RecurringScheduleCancelled,
    RecurringSchedulePaused,
    NoRecurringPaymentDue,
    InvalidRecurringSchedule,
    CancellationNotFound,
    CancellationAlreadyExists,
    CancellationDisputePeriodActive,
    CancellationDisputed,
    CancellationAlreadyDisputed,
    CancellationDisputeDeadlineExpired,
    SlashNotFound,
    SlashAlreadyDisputed,
    SlashDisputeDeadlineExpired,
    DeadlineExpired,
    StorageMigrationFailed,
    WrappedTokenNotApproved,
}

} // verus!
