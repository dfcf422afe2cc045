//! On-chain reputation.

use vstd::prelude::*;
use crate::errors::EscrowError;
use crate::escrow::{EscrowContract, EscrowContractView, fresh_reputation};
use crate::rent::trunc_div;
use crate::types::{AccountId, ReputationRecord};

verus! {

/// `x + y` clamped to the `i128` range.
pub open spec fn sat_add_i128(x: i128, y: i128) -> i128 {
    if x + y > i128::MAX { i128::MAX } else if x + y < i128::MIN { i128::MIN } else { (x + y) as i128 }
}

/// `x - y` clamped to the `i128` range.
pub open spec fn sat_sub_i128(x: i128, y: i128) -> i128 {
    if x - y > i128::MAX { i128::MAX } else if x - y < i128::MIN { i128::MIN } else { (x - y) as i128 }
}

/// `x + y` clamped to the `u64` range.
pub open spec fn sat_add_u64(x: u64, y: int) -> u64 {
    if x + y > u64::MAX { u64::MAX } else { (x + y) as u64 }
}

/// `x - y`, stopping at zero.
pub open spec fn sat_sub_u64(x: u64, y: int) -> u64 {
    if x - y < 0 { 0 } else { (x - y) as u64 }
}

/// Bonus for the volume of a completed escrow: one point per 1000 units,
/// at most 10, as the contract computes it in a `u64`.
pub open spec fn volume_bonus(volume: i128) -> u64 {
    let b = trunc_div(volume as int, 1000);
    (if b <= 10 { b } else { 10 }) as u64
}

/// A reputation update is well defined: the score bonus and the counters fit.
pub open spec fn rep_update_fits(r: ReputationRecord, completed: bool, disputed: bool, volume: i128) -> bool {
    &&& completed ==> 10 + volume_bonus(volume) <= u64::MAX && r.completed_escrows < u32::MAX
    &&& disputed ==> r.disputed_escrows < u32::MAX
}

/// Reputation after an update at `now`: a completed escrow scores
/// `10 + volume_bonus` and adds its volume; a disputed one costs 5 points.
pub open spec fn rep_updated(r: ReputationRecord, completed: bool, disputed: bool, volume: i128, now: u64) -> ReputationRecord {
    let r1 = if completed {
        ReputationRecord {
            total_score: sat_add_u64(r.total_score, 10 + volume_bonus(volume)),
            completed_escrows: (r.completed_escrows + 1) as u32,
            total_volume: sat_add_i128(r.total_volume, volume),
            ..r
        }
    } else {
        r
    };
    let r2 = if disputed {
        ReputationRecord {
            total_score: sat_sub_u64(r1.total_score, 5),
            disputed_escrows: (r1.disputed_escrows + 1) as u32,
            ..r1
        }
    } else {
        r1
    };
    ReputationRecord { last_updated: now, ..r2 }
}

/// State after updating the reputation of `a`.
pub open spec fn with_rep_update(s: EscrowContractView, a: AccountId, completed: bool, disputed: bool, volume: i128, now: u64) -> EscrowContractView {
    EscrowContractView {
        reputations: s.reputations.insert(a, rep_updated(s.reputation_of(a, now), completed, disputed, volume, now)),
        ..s
    }
}

/// `x + y` clamped to the `i128` range.
pub fn saturating_add_i128(x: i128, y: i128) -> (r: i128)
    ensures
        r == sat_add_i128(x, y),
{
    if y > 0 {
        if x > i128::MAX - y { i128::MAX } else { x + y }
    } else {
        if x < i128::MIN - y { i128::MIN } else { x + y }
    }
}

/// `x - y` clamped to the `i128` range.
pub fn saturating_sub_i128(x: i128, y: i128) -> (r: i128)
    ensures
        r == sat_sub_i128(x, y),
{
    if y < 0 {
        if x > i128::MAX + y { i128::MAX } else { x - y }
    } else {
        if x < i128::MIN + y { i128::MIN } else { x - y }
    }
}

impl EscrowContract {
    /// Reputation of `address`, or a fresh record stamped `now` when it has none.
    pub fn load_reputation(&self, now: u64, address: AccountId) -> (r: ReputationRecord)
        requires
            self@.wf(),
        ensures
            r.address == address,
            r == self@.reputation_of(address, now),
    {
        match self.reputations.get(&address) {
            Some(rec) => *rec,
            None => ReputationRecord {
                address,
                total_score: 0,
                completed_escrows: 0,
                disputed_escrows: 0,
                disputes_won: 0,
                total_volume: 0,
                slash_count: 0,
                total_slashed: 0,
                last_updated: now,
            },
        }
    }

    /// Stores the reputation of `record.address`.
    pub(crate) fn save_reputation(&mut self, record: ReputationRecord)
        requires
            old(self)@.wf(),
        ensures
            final(self)@.wf(),
            final(self)@ == (EscrowContractView { reputations: old(self)@.reputations.insert(record.address, record), ..old(self)@ }),
    {
        self.reputations.insert(record.address, record);
        proof {
            assert forall|a: AccountId| #[trigger] self@.reputations.contains_key(a) implies self@.reputations[a].address == a by {
                if a != record.address {
                    assert(old(self)@.reputations.contains_key(a));
                }
            }
            assert forall|id: u64| #[trigger] self@.escrows.contains_key(id) implies crate::escrow::record_wf(self@.escrows[id]) by {
                assert(old(self)@.escrows.contains_key(id));
            }
        }
    }

    /// Applies a reputation update to `address`.
    pub(crate) fn update_reputation_internal(&mut self, now: u64, address: AccountId, completed: bool, disputed: bool, volume: i128)
        requires
            old(self)@.wf(),
            rep_update_fits(old(self)@.reputation_of(address, now), completed, disputed, volume),
        ensures
            final(self)@.wf(),
            final(self)@ == with_rep_update(old(self)@, address, completed, disputed, volume, now),
    {
        let mut record = self.load_reputation(now, address);
        if completed {
            let q = volume / 1000;
            let capped = if q <= 10 { q } else { 10 };
            let bonus = capped as u64;
            record.total_score = record.total_score.saturating_add(10 + bonus);
            record.completed_escrows = record.completed_escrows + 1;
            record.total_volume = saturating_add_i128(record.total_volume, volume);
        }
        if disputed {
            record.total_score = record.total_score.saturating_sub(5);
            record.disputed_escrows = record.disputed_escrows + 1;
        }
        record.last_updated = now;
        proof {
            assert(record.address == address);
        }
        self.save_reputation(record);
    }

    /// Records a completed and/or disputed escrow of `volume` for `address`.
    /// Anyone may call this while the contract is not paused.
    pub fn update_reputation(&mut self, now: u64, address: AccountId, completed: bool, disputed: bool, volume: i128) -> (r: Result<(), EscrowError>)
        requires
            old(self)@.wf(),
            !old(self)@.paused ==> rep_update_fits(old(self)@.reputation_of(address, now), completed, disputed, volume),
        ensures
            final(self)@.wf(),
            old(self)@.paused ==> r == Err::<(), EscrowError>(EscrowError::ContractPaused) && final(self)@ == old(self)@,
            !old(self)@.paused ==> r is Ok && final(self)@ == with_rep_update(old(self)@, address, completed, disputed, volume, now),
    {
        if self.paused {
            return Err(EscrowError::ContractPaused);
        }
        self.update_reputation_internal(now, address, completed, disputed, volume);
        Ok(())
    }

    /// Reputation of `address` (a fresh record for an unknown account).
    pub fn get_reputation(&self, now: u64, address: AccountId) -> (r: Result<ReputationRecord, EscrowError>)
        requires
            self@.wf(),
        ensures
            r == Ok::<ReputationRecord, EscrowError>(self@.reputation_of(address, now)),
    {
        Ok(self.load_reputation(now, address))
    }
}

} // verus!
