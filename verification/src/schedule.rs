//! Recurring schedules and slashing arithmetic.

use vstd::prelude::*;
use crate::constants::SLASH_PERCENTAGE;
use crate::errors::EscrowError;
use crate::escrow::EscrowContract;
use crate::rent::trunc_div;
use crate::types::RecurringInterval;

verus! {

/// Length of one schedule interval, in seconds (a month counts 30 days).
pub open spec fn interval_seconds(interval: RecurringInterval) -> int {
    match interval {
        RecurringInterval::Daily => 86_400,
        RecurringInterval::Weekly => 604_800,
        RecurringInterval::Monthly => 2_592_000,
    }
}

/// Next payment time after `current`.
pub open spec fn next_time_spec(current: u64, interval: RecurringInterval) -> Result<u64, EscrowError> {
    if current + interval_seconds(interval) > u64::MAX {
        Err(EscrowError::InvalidRecurringSchedule)
    } else {
        Ok((current + interval_seconds(interval)) as u64)
    }
}

/// Number of payments that fit between `start` and `end` (both ends
/// included), counted the way the contract walks the schedule: the walk fails
/// when a step past `end` would overflow, or when the count does not fit a `u32`.
pub open spec fn payments_until(start: u64, end: u64, interval: RecurringInterval) -> Result<u32, EscrowError> {
    let secs = interval_seconds(interval);
    let q = (end - start) / secs;
    if end < start {
        Err(EscrowError::InvalidRecurringSchedule)
    } else if q + 1 > u32::MAX {
        Err(EscrowError::InvalidRecurringSchedule)
    } else if start + q * secs < end && start + (q + 1) * secs > u64::MAX {
        Err(EscrowError::InvalidRecurringSchedule)
    } else {
        Ok((q + 1) as u32)
    }
}

/// Total number of payments of a recurring escrow: those that fit before the
/// end date, those requested, the smaller of the two when both are given;
/// at least one, and at least one of the two bounds must be given.
pub open spec fn total_payments_spec(
    start: u64,
    interval: RecurringInterval,
    end_date: Option<u64>,
    number_of_payments: Option<u32>,
) -> Result<u32, EscrowError> {
    let derived = match end_date {
        Some(end) => Some(payments_until(start, end, interval)),
        None => None,
    };
    match derived {
        Some(Err(e)) => Err(e),
        _ => {
            let total = match (derived, number_of_payments) {
                (Some(Ok(d)), Some(c)) => Some(if d <= c { d } else { c }),
                (Some(Ok(d)), None) => Some(d),
                (None, Some(c)) => Some(c),
                _ => None,
            };
            match total {
                None => Err(EscrowError::InvalidRecurringSchedule),
                Some(t) => if t == 0 { Err(EscrowError::InvalidRecurringSchedule) } else { Ok(t) },
            }
        },
    }
}

/// Share of a remaining balance forfeited by a cancelling party.
pub open spec fn slash_spec(remaining_balance: i128) -> int {
    trunc_div(remaining_balance * (SLASH_PERCENTAGE as int), 100)
}

/// `(end - start) / secs` is `m` when `end` lies in the `m`-th interval after `start`.
proof fn lemma_quotient(start: int, end: int, secs: int, m: int)
    requires
        secs > 0,
        m >= 0,
        start + m * secs <= end < start + (m + 1) * secs,
    ensures
        (end - start) / secs == m,
{
    let d = end - start;
    assert(m * secs <= d < (m + 1) * secs) by (nonlinear_arith)
        requires start + m * secs <= end < start + (m + 1) * secs, d == end - start;
    vstd::arithmetic::div_mod::lemma_fundamental_div_mod(d, secs);
    let q = d / secs;
    let r = d % secs;
    assert(0 <= r < secs);
    assert(q == m) by (nonlinear_arith)
        requires d == secs * q + r, 0 <= r < secs, m * secs <= d < (m + 1) * secs, secs > 0;
}

/// `(end - start) / secs` is at least `m` when `start + m * secs` is at most `end`.
proof fn lemma_quotient_at_least(start: int, end: int, secs: int, m: int)
    requires
        secs > 0,
        m >= 0,
        start + m * secs <= end,
    ensures
        (end - start) / secs >= m,
{
    let d = end - start;
    vstd::arithmetic::div_mod::lemma_fundamental_div_mod(d, secs);
    let q = d / secs;
    let r = d % secs;
    assert(q >= m) by (nonlinear_arith)
        requires d == secs * q + r, 0 <= r < secs, m * secs <= d, secs > 0;
}

impl EscrowContract {
    /// Next payment time after `current`, or an invalid schedule if it overflows.
    pub fn next_schedule_time(current: u64, interval: RecurringInterval) -> (r: Result<u64, EscrowError>)
        ensures
            r == next_time_spec(current, interval),
    {
        let seconds: u64 = match interval {
            RecurringInterval::Daily => 86_400u64,
            RecurringInterval::Weekly => 7 * 86_400u64,
            RecurringInterval::Monthly => 30 * 86_400u64,
        };
        match current.checked_add(seconds) {
            Some(t) => Ok(t),
            None => Err(EscrowError::InvalidRecurringSchedule),
        }
    }

    /// Total number of payments of a schedule starting at `start_time`.
    pub fn resolve_total_payments(
        start_time: u64,
        interval: RecurringInterval,
        end_date: Option<u64>,
        number_of_payments: Option<u32>,
    ) -> (r: Result<u32, EscrowError>)
        ensures
            r == total_payments_spec(start_time, interval, end_date, number_of_payments),
    {
        let derived: Option<u32> = match end_date {
            Some(end) => {
                match Self::payments_before(start_time, end, interval) {
                    Ok(p) => Some(p),
                    Err(e) => return Err(e),
                }
            },
            None => None,
        };
        let total = match (derived, number_of_payments) {
            (Some(by_end_date), Some(by_count)) => if by_end_date <= by_count { by_end_date } else { by_count },
            (Some(by_end_date), None) => by_end_date,
            (None, Some(by_count)) => by_count,
            (None, None) => return Err(EscrowError::InvalidRecurringSchedule),
        };
        if total == 0 {
            return Err(EscrowError::InvalidRecurringSchedule);
        }
        Ok(total)
    }

    /// Walks the schedule from `start` while it stays at or before `end`,
    /// counting the payments.
    fn payments_before(start: u64, end: u64, interval: RecurringInterval) -> (r: Result<u32, EscrowError>)
        ensures
            r == payments_until(start, end, interval),
    {
        if end < start {
            return Err(EscrowError::InvalidRecurringSchedule);
        }
        let ghost secs = interval_seconds(interval);
        let mut payments: u32 = 1;
        let mut scheduled_at = start;
        while scheduled_at < end
            invariant
                start <= scheduled_at <= end,
                1 <= payments,
                secs == interval_seconds(interval),
                secs > 0,
                scheduled_at == start + (payments - 1) * secs,
            decreases end - scheduled_at,
        {
            let next = match Self::next_schedule_time(scheduled_at, interval) {
                Ok(t) => t,
                Err(e) => {
                    proof {
                        lemma_quotient(start as int, end as int, secs, (payments - 1) as int);
                    }
                    return Err(e);
                },
            };
            if next > end {
                proof {
                    lemma_quotient(start as int, end as int, secs, (payments - 1) as int);
                }
                return Ok(payments);
            }
            let ghost m = payments as int;
            proof {
                assert(start + m * secs == scheduled_at + secs) by (nonlinear_arith)
                    requires scheduled_at == start + (m - 1) * secs;
            }
            payments = match payments.checked_add(1) {
                Some(p) => p,
                None => {
                    proof {
                        lemma_quotient_at_least(start as int, end as int, secs, m);
                    }
                    return Err(EscrowError::InvalidRecurringSchedule);
                },
            };
            scheduled_at = next;
        }
        proof {
            lemma_quotient(start as int, end as int, secs, (payments - 1) as int);
        }
        Ok(payments)
    }

    /// Share of `remaining_balance` slashed from a cancelling party.
    pub fn calculate_slash_amount(remaining_balance: i128) -> (r: i128)
        requires
            i128::MIN <= remaining_balance * (SLASH_PERCENTAGE as int) <= i128::MAX,
        ensures
            r == slash_spec(remaining_balance),
    {
        remaining_balance * (SLASH_PERCENTAGE as i128) / 100
    }
}

} // verus!
