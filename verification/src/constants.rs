//! Protocol constants of the escrow contract.

use vstd::prelude::*;

verus! {

/// Maximum allowed `total_amount` for a single escrow, in stroops
/// (100 billion XLM at 10^7 stroops per XLM).
pub const MAX_ESCROW_AMOUNT: i128 = 1_000_000_000_000_000_000i128;

/// Seconds during which the counterparty may dispute a cancellation request.
pub const CANCELLATION_DISPUTE_PERIOD: u64 = 120_960u64;

/// Seconds during which a slashed user may dispute the slash.
pub const SLASH_DISPUTE_PERIOD: u64 = 51_840u64;

/// Share of the remaining balance, in percent, that a cancelling party forfeits.
pub const SLASH_PERCENTAGE: u64 = 10u64;

/// Length of one storage-rent period, in seconds.
pub const RENT_PERIOD_SECONDS: u64 = 86_400u64;

/// Number of rent periods that a new storage entry prepays.
pub const RENT_RESERVE_PERIODS: u64 = 30u64;

/// Rent owed per storage entry per period, in token units.
pub const RENT_PER_ENTRY_PER_PERIOD: i128 = 1i128;

/// Default cap on the number of milestones of one escrow.
pub const MAX_MILESTONES: u32 = 20u32;

/// Maximum byte length of a title or a reason string.
pub const MAX_STRING_LEN: u32 = 256u32;

/// Maximum number of buyer signers of one escrow.
pub const MAX_BUYER_SIGNERS: u32 = 10u32;

/// Longest timelock that `start_timelock` accepts: 30 days, in seconds.
pub const MAX_TIMELOCK_DURATION: u64 = 2_592_000u64;

/// Largest milestone cap that `set_max_milestones` accepts.
pub const MAX_MILESTONE_CAP: u32 = 100u32;

} // verus!
