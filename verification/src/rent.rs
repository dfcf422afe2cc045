//! Storage rent: every stored entry of an escrow costs
//! `RENT_PER_ENTRY_PER_PERIOD` per `RENT_PERIOD_SECONDS`, paid from a reserve
//! that the escrow holds in its token.

use vstd::prelude::*;
use crate::constants::{RENT_PER_ENTRY_PER_PERIOD, RENT_RESERVE_PERIODS, RENT_PERIOD_SECONDS};

verus! {

/// Division that truncates toward zero, as Rust's `/` on signed integers does.
pub open spec fn trunc_div(a: int, b: int) -> int {
    if a >= 0 { a / b } else { -((-a) / b) }
}

/// Reserve that `entries` new storage entries prepay.
pub open spec fn reserve_spec(entries: int) -> int {
    entries * RENT_PER_ENTRY_PER_PERIOD * RENT_RESERVE_PERIODS
}

/// Rent owed per period by an escrow with `milestone_count` milestones and
/// `extra` optional entries (recurring schedule, cancellation request, slash record).
pub open spec fn rent_per_period_spec(milestone_count: u32, extra: int) -> int {
    (1 + milestone_count + extra) * RENT_PER_ENTRY_PER_PERIOD
}

/// Whole rent periods between the last collection and `now`.
pub open spec fn elapsed_periods(last: u64, now: u64) -> int {
    if now <= last { 0 } else { (now - last) / (RENT_PERIOD_SECONDS as int) }
}

/// An escrow's rent has run out: a whole period has elapsed and more periods
/// have elapsed than the reserve covers.
pub open spec fn rent_expired_spec(balance: i128, last: u64, now: u64, per: int) -> bool {
    &&& elapsed_periods(last, now) > 0
    &&& elapsed_periods(last, now) > trunc_div(balance as int, per)
}

/// Rent collected at `now`: what the elapsed periods owe, at most the reserve.
pub open spec fn collectable_spec(balance: i128, last: u64, now: u64, per: int) -> int {
    let e = elapsed_periods(last, now);
    if e == 0 {
        0
    } else if per * e <= balance {
        per * e
    } else {
        balance as int
    }
}

/// Reserve after a collection at `now`.
pub open spec fn balance_after_spec(balance: i128, last: u64, now: u64, per: int) -> int {
    let c = collectable_spec(balance, last, now, per);
    if c > 0 { balance - c } else { balance as int }
}

/// Collection checkpoint after a collection at `now`: it advances by the
/// whole periods that the collected amount paid for.
pub open spec fn last_after_spec(balance: i128, last: u64, now: u64, per: int) -> int {
    let c = collectable_spec(balance, last, now, per);
    last + (c / per) * (RENT_PERIOD_SECONDS as int)
}

/// Time at which a reserve of `balance`, checkpointed at `last`, runs out.
pub open spec fn expires_at_spec(balance: int, last: int, per: int) -> int {
    last + (balance / per + 1) * (RENT_PERIOD_SECONDS as int)
}

/// A collection at `now` is well defined: either nothing is due, or the
/// expiry time reported after it fits in a `u64`.
pub open spec fn collection_fits(balance: i128, last: u64, now: u64, per: int) -> bool {
    elapsed_periods(last, now) == 0 || expires_at_spec(
        balance_after_spec(balance, last, now, per),
        last_after_spec(balance, last, now, per),
        per,
    ) <= u64::MAX
}

/// Storage-rent arithmetic of the escrow contract.
pub struct ContractStorage;

impl ContractStorage {
    /// Reserve charged for `entries` new storage entries.
    pub fn reserve_for_entries(entries: i128) -> (r: i128)
        requires
            i128::MIN <= reserve_spec(entries as int) <= i128::MAX,
        ensures
            r == reserve_spec(entries as int),
    {
        entries * RENT_PER_ENTRY_PER_PERIOD * (RENT_RESERVE_PERIODS as i128)
    }

    /// Rent owed per period for the given number of entries.
    pub fn rent_due_per_period(milestone_count: u32, extra: u32) -> (r: i128)
        requires
            extra <= 3,
        ensures
            r == rent_per_period_spec(milestone_count, extra as int),
            1 <= r <= 0x1_0000_0004,
    {
        (1 + (milestone_count as i128) + (extra as i128)) * RENT_PER_ENTRY_PER_PERIOD
    }

    /// Whether the reserve no longer covers the periods elapsed since `last`.
    pub fn rent_has_expired(balance: i128, last: u64, now: u64, per: i128) -> (r: bool)
        requires
            per >= 1,
        ensures
            r == rent_expired_spec(balance, last, now, per as int),
    {
        if now <= last {
            return false;
        }
        let elapsed = (now - last) / RENT_PERIOD_SECONDS;
        if elapsed == 0 {
            return false;
        }
        let covered = balance / per;
        (elapsed as i128) > covered
    }

    /// Amount collected, reserve left and new checkpoint, for a collection at `now`.
    pub fn collect_amounts(balance: i128, last: u64, now: u64, per: i128) -> (r: (i128, i128, u64))
        requires
            1 <= per <= 0x1_0000_0004,
            balance >= 0,
        ensures
            r.0 == collectable_spec(balance, last, now, per as int),
            r.1 == balance_after_spec(balance, last, now, per as int),
            r.2 == last_after_spec(balance, last, now, per as int),
            0 <= r.0 <= balance,
            r.1 >= 0,
            last <= r.2,
            elapsed_periods(last, now) > 0 ==> r.2 <= now,
    {
        let since = if now > last { now - last } else { 0 };
        if since == 0 {
            return (0, balance, last);
        }
        let elapsed = since / RENT_PERIOD_SECONDS;
        if elapsed == 0 {
            return (0, balance, last);
        }
        assert(per * elapsed <= 0x1_0000_0004 * 0x1_0000_0000_0000_0000) by (nonlinear_arith)
            requires 1 <= per <= 0x1_0000_0004, elapsed <= 0xffff_ffff_ffff_ffff;
        let due = per * (elapsed as i128);
        let collectable = if due <= balance { due } else { balance };
        let new_balance = if collectable > 0 { balance - collectable } else { balance };
        let covered = (collectable / per) as u64;
        proof {
            assert(collectable / per <= elapsed) by (nonlinear_arith)
                requires collectable <= per * elapsed, per >= 1, collectable >= 0;
            assert(covered * RENT_PERIOD_SECONDS <= since) by (nonlinear_arith)
                requires covered <= elapsed, elapsed == since / 86400u64, RENT_PERIOD_SECONDS == 86400u64;
        }
        let new_last = last + covered * RENT_PERIOD_SECONDS;
        (collectable, new_balance, new_last)
    }

    /// Time at which the reserve runs out, when it fits in a `u64`.
    pub fn rent_expires_at(balance: i128, last: u64, per: i128) -> (r: u64)
        requires
            1 <= per,
            balance >= 0,
            expires_at_spec(balance as int, last as int, per as int) <= u64::MAX,
        ensures
            r == expires_at_spec(balance as int, last as int, per as int),
    {
        let covered = (balance / per) as u64;
        last + (covered + 1) * RENT_PERIOD_SECONDS
    }

    /// Whether the time at which a reserve of `balance`, checkpointed at
    /// `last`, runs out fits in a `u64`.
    pub fn expiry_fits(balance: i128, last: u64, per: i128) -> (r: bool)
        requires
            1 <= per,
            balance >= 0,
        ensures
            r == (expires_at_spec(balance as int, last as int, per as int) <= u64::MAX),
    {
        let covered = balance / per;
        let room = (u64::MAX - last) / RENT_PERIOD_SECONDS;
        proof {
            let d = u64::MAX - last;
            let p = RENT_PERIOD_SECONDS as int;
            let k = covered + 1;
            vstd::arithmetic::div_mod::lemma_fundamental_div_mod(d, p);
            assert(k * p <= d <==> k <= d / p) by (nonlinear_arith)
                requires
                    d == p * (d / p) + d % p,
                    0 <= d % p < p,
                    p > 0,
                    k >= 1,
            {
                if k <= d / p {
                    assert(k * p <= (d / p) * p);
                } else {
                    assert(k >= d / p + 1);
                    assert(k * p >= (d / p + 1) * p);
                }
            }
        }
        covered < room as i128
    }
}

} // verus!
