//! Batch operations: several milestones added, approved or released with one
//! load of the escrow header and one token transfer.

use vstd::prelude::*;
use crate::constants::MAX_STRING_LEN;
use crate::errors::EscrowError;
use crate::escrow::{
    EscrowContract, EscrowContractView, EscrowMetaView, EscrowRecord, EscrowRecordView, MilestoneView,
    Step, access_spec, contains_account, follows, lemma_settled_wf, lemma_take_put,
    lemma_with_escrow_wf, lock_check, record_wf, rent_transfers, settle_fits, timelock_check,
    view_milestones, with_escrow,
};
use crate::escrow_milestones::{entry_rent_transfer, may_approve, new_milestone};
use crate::rent::{ContractStorage, reserve_spec};
use crate::types::{
    AccountId, EscrowStatus, Hash32, Milestone, Transfer, MS_APPROVED, MS_PENDING, MS_RELEASED,
    MS_SUBMITTED,
};

verus! {

/// Validation of the first `n` new milestones of a batch: each amount must be
/// positive, each title short enough, and the running total must fit. Gives
/// the total, or the error of the first failing entry.
pub open spec fn batch_add_scan(amounts: Seq<i128>, titles: Seq<Seq<u8>>, n: int) -> Result<int, EscrowError>
    decreases n,
{
    if n <= 0 {
        Ok(0)
    } else {
        match batch_add_scan(amounts, titles, n - 1) {
            Err(e) => Err(e),
            Ok(t) => if amounts[n - 1] <= 0 {
                Err(EscrowError::InvalidMilestoneAmount)
            } else if titles[n - 1].len() > MAX_STRING_LEN {
                Err(EscrowError::InvalidEscrowAmount)
            } else if t + amounts[n - 1] > i128::MAX {
                Err(EscrowError::MilestoneAmountExceedsEscrow)
            } else {
                Ok(t + amounts[n - 1])
            },
        }
    }
}

/// Views of a list of byte strings.
pub open spec fn view_titles(ts: Seq<Vec<u8>>) -> Seq<Seq<u8>> {
    ts.map_values(|t: Vec<u8>| t@)
}

/// The milestones that a batch appends, numbered from `first`.
pub open spec fn batch_new_milestones(
    first: u32,
    titles: Seq<Seq<u8>>,
    hashes: Seq<Hash32>,
    amounts: Seq<i128>,
) -> Seq<MilestoneView> {
    Seq::new(titles.len(), |i: int| new_milestone((first + i) as u32, titles[i], hashes[i], amounts[i]))
}

/// Outcome of `batch_add_milestones`; returns the id of the first new milestone.
pub open spec fn batch_add_spec(
    s: EscrowContractView,
    now: u64,
    caller: AccountId,
    id: u64,
    titles: Seq<Seq<u8>>,
    hashes: Seq<Hash32>,
    amounts: Seq<i128>,
) -> Result<Step<u32>, EscrowError> {
    let n = titles.len();
    if s.paused {
        Err(EscrowError::ContractPaused)
    } else if n == 0 || n != hashes.len() || n != amounts.len() {
        Err(EscrowError::InvalidMilestoneAmount)
    } else {
        match access_spec(s, id, now) {
            Err(e) => Err(e),
            Ok((p, rec)) => {
                let m = rec.meta;
                if caller != m.client {
                    Err(EscrowError::ClientOnly)
                } else if m.status != EscrowStatus::Active {
                    Err(EscrowError::EscrowNotActive)
                } else if m.milestone_count + n > s.milestone_cap() {
                    Err(EscrowError::TooManyMilestones)
                } else {
                    match batch_add_scan(amounts, titles, n as int) {
                        Err(e) => Err(e),
                        Ok(total) => if m.allocated_amount + total > m.total_amount {
                            Err(EscrowError::MilestoneAmountExceedsEscrow)
                        } else if m.rent_balance + reserve_spec(n as int) > i128::MAX {
                            Err(EscrowError::AmountMismatch)
                        } else {
                            let meta = EscrowMetaView {
                                milestone_count: (m.milestone_count + n) as u32,
                                allocated_amount: (m.allocated_amount + total) as i128,
                                rent_balance: (m.rent_balance + reserve_spec(n as int)) as i128,
                                ..m
                            };
                            let new_rec = EscrowRecordView {
                                meta,
                                milestones: rec.milestones + batch_new_milestones(m.milestone_count, titles, hashes, amounts),
                                ..rec
                            };
                            Ok(Step {
                                value: m.milestone_count,
                                state: with_escrow(s, id, new_rec),
                                transfers: rent_transfers(s, s.escrows[id], p)
                                    + entry_rent_transfer(s, m.token, caller, n as int),
                            })
                        },
                    }
                }
            },
        }
    }
}

/// Validation of the first `n` ids of a batch: each must name a milestone in
/// state `required` that no earlier id names (a milestone listed again is no
/// longer in that state), and the running total of their amounts must fit. Gives
/// the total, or the error of the first failing id.
pub open spec fn batch_scan(ms: Seq<MilestoneView>, ids: Seq<u32>, required: u32, n: int) -> Result<int, EscrowError>
    decreases n,
{
    if n <= 0 {
        Ok(0)
    } else {
        match batch_scan(ms, ids, required, n - 1) {
            Err(e) => Err(e),
            Ok(t) => if ids[n - 1] >= ms.len() {
                Err(EscrowError::MilestoneNotFound)
            } else if ids.take(n - 1).contains(ids[n - 1]) {
                Err(EscrowError::InvalidMilestoneState)
            } else if ms[ids[n - 1] as int].status != required {
                Err(EscrowError::InvalidMilestoneState)
            } else if t + ms[ids[n - 1] as int].amount > i128::MAX || t + ms[ids[n - 1] as int].amount < i128::MIN {
                Err(EscrowError::AmountMismatch)
            } else {
                Ok(t + ms[ids[n - 1] as int].amount)
            },
        }
    }
}

/// `ms` with every milestone named in `ids` moved to `status`, and, when
/// `resolved` is given, stamped with it.
pub open spec fn mark_milestones(ms: Seq<MilestoneView>, ids: Seq<u32>, status: u32, resolved: Option<u64>) -> Seq<MilestoneView> {
    Seq::new(ms.len(), |k: int| if ids.contains(k as u32) {
        MilestoneView {
            status,
            resolved_at: if resolved is Some { resolved } else { ms[k].resolved_at },
            ..ms[k]
        }
    } else {
        ms[k]
    })
}

/// `x - n`, stopping at zero.
pub open spec fn sat_sub(x: u32, n: int) -> u32 {
    if x >= n { (x - n) as u32 } else { 0u32 }
}

/// Outcome of `batch_approve_milestones`; returns the total approved amount,
/// paid to the freelancer in one transfer when no timelock is running.
pub open spec fn batch_approve_spec(
    s: EscrowContractView,
    now: u64,
    caller: AccountId,
    id: u64,
    ids: Seq<u32>,
) -> Result<Step<i128>, EscrowError> {
    let n = ids.len();
    if s.paused {
        Err(EscrowError::ContractPaused)
    } else if n == 0 {
        Err(EscrowError::InvalidMilestoneAmount)
    } else {
        match access_spec(s, id, now) {
            Err(e) => Err(e),
            Ok((p, rec)) => {
                let m = rec.meta;
                if m.status != EscrowStatus::Active {
                    Err(EscrowError::EscrowNotActive)
                } else if lock_check(m.lock_time, now) is Err {
                    Err(EscrowError::LockTimeNotExpired)
                } else if !may_approve(rec, caller) {
                    Err(EscrowError::Unauthorized)
                } else {
                    let release = timelock_check(m.timelock, now) is Ok;
                    match batch_scan(rec.milestones, ids, MS_SUBMITTED, n as int) {
                        Err(e) => Err(e),
                        Ok(total) => if m.approved_count + n > u32::MAX
                            || (release && m.released_count + n > u32::MAX)
                            || (release && total > 0 && (m.remaining_balance - total < i128::MIN
                                || m.remaining_balance - total > i128::MAX)) {
                            Err(EscrowError::AmountMismatch)
                        } else {
                            let pay = release && total > 0;
                            let released = if release { (m.released_count + n) as u32 } else { m.released_count };
                            let complete = released == m.milestone_count && m.milestone_count > 0;
                            let meta = EscrowMetaView {
                                approved_count: (m.approved_count + n) as u32,
                                submitted_count: sat_sub(m.submitted_count, n as int),
                                released_count: released,
                                remaining_balance: if pay { (m.remaining_balance - total) as i128 } else { m.remaining_balance },
                                status: if complete { EscrowStatus::Completed } else { m.status },
                                ..m
                            };
                            let new_rec = EscrowRecordView {
                                meta,
                                milestones: mark_milestones(rec.milestones, ids, if release { MS_RELEASED } else { MS_APPROVED }, Some(now)),
                                ..rec
                            };
                            Ok(Step {
                                value: total as i128,
                                state: with_escrow(s, id, new_rec),
                                transfers: rent_transfers(s, s.escrows[id], p) + if pay {
                                    seq![Transfer { token: m.token, from: s.contract_address, to: m.freelancer, amount: total as i128 }]
                                } else {
                                    Seq::empty()
                                },
                            })
                        },
                    }
                }
            },
        }
    }
}

/// Outcome of `batch_release_funds`: the admin releases several approved
/// milestones with one transfer; returns the total.
pub open spec fn batch_release_spec(
    s: EscrowContractView,
    now: u64,
    caller: AccountId,
    id: u64,
    ids: Seq<u32>,
) -> Result<Step<i128>, EscrowError> {
    let n = ids.len();
    if s.admin is None {
        Err(EscrowError::NotInitialized)
    } else if s.paused {
        Err(EscrowError::ContractPaused)
    } else if caller != s.admin->0 {
        Err(EscrowError::AdminOnly)
    } else if n == 0 {
        Err(EscrowError::InvalidMilestoneAmount)
    } else {
        match access_spec(s, id, now) {
            Err(e) => Err(e),
            Ok((p, rec)) => {
                let m = rec.meta;
                if lock_check(m.lock_time, now) is Err {
                    Err(EscrowError::LockTimeNotExpired)
                } else {
                    match batch_scan(rec.milestones, ids, MS_APPROVED, n as int) {
                        Err(e) => Err(e),
                        Ok(total) => if m.released_count + n > u32::MAX
                            || m.remaining_balance - total < i128::MIN
                            || m.remaining_balance - total > i128::MAX {
                            Err(EscrowError::AmountMismatch)
                        } else {
                            let released = (m.released_count + n) as u32;
                            let complete = released == m.milestone_count && m.milestone_count > 0;
                            let meta = EscrowMetaView {
                                released_count: released,
                                remaining_balance: (m.remaining_balance - total) as i128,
                                status: if complete { EscrowStatus::Completed } else { m.status },
                                ..m
                            };
                            let new_rec = EscrowRecordView {
                                meta,
                                milestones: mark_milestones(rec.milestones, ids, MS_RELEASED, None),
                                ..rec
                            };
                            Ok(Step {
                                value: total as i128,
                                state: with_escrow(s, id, new_rec),
                                transfers: rent_transfers(s, s.escrows[id], p)
                                    + seq![Transfer { token: m.token, from: s.contract_address, to: m.freelancer, amount: total as i128 }],
                            })
                        },
                    }
                }
            },
        }
    }
}

/// Marking one more id extends the marking of the ids before it.
proof fn lemma_mark_step(ms: Seq<MilestoneView>, ids: Seq<u32>, j: int, status: u32, resolved: Option<u64>)
    requires
        0 <= j < ids.len(),
        ids[j] < ms.len(),
        ms.len() <= u32::MAX + 1,
    ensures
        mark_milestones(ms, ids.take(j + 1), status, resolved) =~= mark_milestones(ms, ids.take(j), status, resolved).update(
            ids[j] as int,
            MilestoneView {
                status,
                resolved_at: if resolved is Some { resolved } else { ms[ids[j] as int].resolved_at },
                ..ms[ids[j] as int]
            },
        ),
{
    let a = mark_milestones(ms, ids.take(j + 1), status, resolved);
    let b = mark_milestones(ms, ids.take(j), status, resolved);
    assert forall|k: int| 0 <= k < ms.len() implies #[trigger] a[k] == b.update(ids[j] as int, MilestoneView {
        status,
        resolved_at: if resolved is Some { resolved } else { ms[ids[j] as int].resolved_at },
        ..ms[ids[j] as int]
    })[k] by {
        assert(ids.take(j + 1).contains(k as u32) <==> (ids.take(j).contains(k as u32) || ids[j] == k as u32)) by {
            if ids.take(j + 1).contains(k as u32) {
                let i = choose|i: int| 0 <= i < j + 1 && #[trigger] ids.take(j + 1)[i] == k as u32;
                if i < j {
                    assert(ids.take(j)[i] == k as u32);
                }
            }
            if ids.take(j).contains(k as u32) {
                let i = choose|i: int| 0 <= i < j && #[trigger] ids.take(j)[i] == k as u32;
                assert(ids.take(j + 1)[i] == k as u32);
            }
            if ids[j] == k as u32 {
                assert(ids.take(j + 1)[j] == k as u32);
            }
        }
    }
}


/// Once the scan of a batch fails, scanning more ids keeps the first error.
proof fn lemma_scan_err(ms: Seq<MilestoneView>, ids: Seq<u32>, required: u32, i: int, n: int)
    requires
        0 <= i <= n,
        batch_scan(ms, ids, required, i) is Err,
    ensures
        batch_scan(ms, ids, required, n) == batch_scan(ms, ids, required, i),
    decreases n - i,
{
    if i < n {
        lemma_scan_err(ms, ids, required, i, n - 1);
    }
}

/// Once the validation of a batch of new milestones fails, validating more keeps the first error.
proof fn lemma_add_scan_err(amounts: Seq<i128>, titles: Seq<Seq<u8>>, i: int, n: int)
    requires
        0 <= i <= n,
        batch_add_scan(amounts, titles, i) is Err,
    ensures
        batch_add_scan(amounts, titles, n) == batch_add_scan(amounts, titles, i),
    decreases n - i,
{
    if i < n {
        lemma_add_scan_err(amounts, titles, i, n - 1);
    }
}

/// A successful validation yields a positive total when the batch is not empty.
proof fn lemma_add_scan_total(amounts: Seq<i128>, titles: Seq<Seq<u8>>, n: int)
    requires
        0 <= n,
        batch_add_scan(amounts, titles, n) is Ok,
    ensures
        batch_add_scan(amounts, titles, n)->Ok_0 >= n,
    decreases n,
{
    if n > 0 {
        lemma_add_scan_total(amounts, titles, n - 1);
    }
}


/// A successful scan names only stored milestones.
proof fn lemma_scan_ok_valid(ms: Seq<MilestoneView>, ids: Seq<u32>, required: u32, n: int)
    requires
        0 <= n <= ids.len(),
        batch_scan(ms, ids, required, n) is Ok,
    ensures
        forall|k: int| 0 <= k < n ==> (#[trigger] ids[k]) < ms.len(),
    decreases n,
{
    if n > 0 {
        lemma_scan_ok_valid(ms, ids, required, n - 1);
    }
}

/// Marking keeps the length and the numbering of the milestones.
proof fn lemma_mark_wf(ms: Seq<MilestoneView>, ids: Seq<u32>, status: u32, resolved: Option<u64>)
    ensures
        mark_milestones(ms, ids, status, resolved).len() == ms.len(),
        forall|k: int| 0 <= k < ms.len() ==> (#[trigger] mark_milestones(ms, ids, status, resolved)[k]).id == ms[k].id,
{
}

impl EscrowContract {
    /// Scans `ids` over the milestones of `rec`: checks each against `required`
    /// and totals the amounts.
    fn scan_batch(rec: &EscrowRecord, ids: &Vec<u32>, required: u32) -> (r: Result<i128, EscrowError>)
        ensures
            match batch_scan(rec@.milestones, ids@, required, ids@.len() as int) {
                Ok(t) => r == Ok::<i128, EscrowError>(t as i128),
                Err(e) => r == Err::<i128, EscrowError>(e),
            },
    {
        let mut total: i128 = 0;
        let mut i: usize = 0;
        while i < ids.len()
            invariant
                0 <= i <= ids@.len(),
                batch_scan(rec@.milestones, ids@, required, i as int) == Ok::<int, EscrowError>(total as int),
            decreases ids@.len() - i,
        {
            let mid = ids[i];
            if mid as usize >= rec.milestones.len() {
                proof { lemma_scan_err(rec@.milestones, ids@, required, i + 1, ids@.len() as int); }
                return Err(EscrowError::MilestoneNotFound);
            }
            if Self::listed_before(ids, i) {
                proof { lemma_scan_err(rec@.milestones, ids@, required, i + 1, ids@.len() as int); }
                return Err(EscrowError::InvalidMilestoneState);
            }
            let m = &rec.milestones[mid as usize];
            if m.status != required {
                proof { lemma_scan_err(rec@.milestones, ids@, required, i + 1, ids@.len() as int); }
                return Err(EscrowError::InvalidMilestoneState);
            }
            total = match total.checked_add(m.amount) {
                Some(t) => t,
                None => {
                    proof { lemma_scan_err(rec@.milestones, ids@, required, i + 1, ids@.len() as int); }
                    return Err(EscrowError::AmountMismatch);
                },
            };
            i = i + 1;
        }
        Ok(total)
    }

    /// Whether `ids[i]` already occurs among the ids before it.
    fn listed_before(ids: &Vec<u32>, i: usize) -> (r: bool)
        requires
            i < ids@.len(),
        ensures
            r == ids@.take(i as int).contains(ids@[i as int]),
    {
        let mut j: usize = 0;
        while j < i
            invariant
                0 <= j <= i < ids@.len(),
                forall|k: int| 0 <= k < j ==> ids@[k] != ids@[i as int],
            decreases i - j,
        {
            if ids[j] == ids[i] {
                assert(ids@.take(i as int)[j as int] == ids@[i as int]);
                return true;
            }
            j = j + 1;
        }
        proof {
            if ids@.take(i as int).contains(ids@[i as int]) {
                let k = choose|k: int| 0 <= k < ids@.take(i as int).len() && ids@.take(i as int)[k] == ids@[i as int];
                assert(ids@[k] != ids@[i as int]);
            }
        }
        false
    }

    /// Moves every milestone named in `ids` to `status`, stamping `resolved` when given.
    fn mark_batch(rec: &mut EscrowRecord, ids: &Vec<u32>, status: u32, resolved: Option<u64>)
        requires
            forall|k: int| 0 <= k < ids@.len() ==> (#[trigger] ids@[k]) < old(rec).milestones@.len(),
            old(rec).milestones@.len() <= u32::MAX,
        ensures
            final(rec)@ == (EscrowRecordView {
                milestones: mark_milestones(old(rec)@.milestones, ids@, status, resolved),
                ..old(rec)@
            }),
    {
        let ghost ms0 = old(rec)@.milestones;
        let mut j: usize = 0;
        assert(mark_milestones(ms0, ids@.take(0), status, resolved) =~= ms0);
        while j < ids.len()
            invariant
                0 <= j <= ids@.len(),
                ms0 == old(rec)@.milestones,
                ms0.len() <= u32::MAX,
                forall|k: int| 0 <= k < ids@.len() ==> (#[trigger] ids@[k]) < ms0.len(),
                rec@ == (EscrowRecordView { milestones: mark_milestones(ms0, ids@.take(j as int), status, resolved), ..old(rec)@ }),
            decreases ids@.len() - j,
        {
            let mid = ids[j] as usize;
            let ghost before = rec.milestones@;
            proof {
                assert(view_milestones(before) == mark_milestones(ms0, ids@.take(j as int), status, resolved));
                assert(view_milestones(before).len() == ms0.len());
            }
            rec.milestones[mid].status = status;
            if resolved.is_some() {
                rec.milestones[mid].resolved_at = resolved;
            }
            proof {
                lemma_mark_step(ms0, ids@, j as int, status, resolved);
                let target = MilestoneView {
                    status,
                    resolved_at: if resolved is Some { resolved } else { ms0[mid as int].resolved_at },
                    ..ms0[mid as int]
                };
                assert(view_milestones(before)[mid as int] == before[mid as int]@);
                assert(rec.milestones@[mid as int]@ == target);
                crate::escrow::lemma_milestones_update(before, mid as int, rec.milestones@[mid as int]);
                assert(rec.milestones@ =~= before.update(mid as int, rec.milestones@[mid as int]));
                assert(view_milestones(rec.milestones@) =~= mark_milestones(ms0, ids@.take(j + 1), status, resolved));
            }
            j = j + 1;
        }
        proof {
            assert(ids@.take(ids@.len() as int) =~= ids@);
        }
    }

    /// Approves several submitted milestones at once; returns their total,
    /// paid to the freelancer in one transfer unless a timelock is running.
    pub fn batch_approve_milestones(
        &mut self,
        now: u64,
        caller: AccountId,
        id: u64,
        milestone_ids: Vec<u32>,
        transfers: &mut Vec<Transfer>,
    ) -> (r: Result<i128, EscrowError>)
        requires
            old(self)@.wf(),
            settle_fits(old(self)@, id, now),
            milestone_ids@.len() <= u32::MAX,
        ensures
            final(self)@.wf(),
            follows(r, batch_approve_spec(old(self)@, now, caller, id, milestone_ids@), old(self)@, final(self)@, old(transfers)@, final(transfers)@),
    {
        if self.paused {
            return Err(EscrowError::ContractPaused);
        }
        if milestone_ids.len() == 0 {
            return Err(EscrowError::InvalidMilestoneAmount);
        }
        let p = match self.plan_rent(id, now) {
            Ok(p) => p,
            Err(e) => return Err(e),
        };
        let ghost s0 = self@;
        let rec = self.record_ref(id);
        if rec.meta.status != EscrowStatus::Active {
            return Err(EscrowError::EscrowNotActive);
        }
        if let Err(e) = Self::check_lock_time_expired(rec.meta.lock_time, now) {
            return Err(e);
        }
        if caller != rec.meta.client && !contains_account(&rec.meta.buyer_signers, caller) {
            return Err(EscrowError::Unauthorized);
        }
        let release = Self::check_timelock_expired(rec.meta.timelock, now).is_ok();
        let total = match Self::scan_batch(rec, &milestone_ids, MS_SUBMITTED) {
            Ok(t) => t,
            Err(e) => return Err(e),
        };
        proof {
            lemma_scan_ok_valid(rec@.milestones, milestone_ids@, MS_SUBMITTED, milestone_ids@.len() as int);
            assert(record_wf(s0.escrows[id]));
        }
        let n = milestone_ids.len() as u64;
        if rec.meta.approved_count as u64 + n > u32::MAX as u64 {
            return Err(EscrowError::AmountMismatch);
        }
        if release && rec.meta.released_count as u64 + n > u32::MAX as u64 {
            return Err(EscrowError::AmountMismatch);
        }
        let pay = release && total > 0;
        let mut remaining = rec.meta.remaining_balance;
        if pay {
            remaining = match remaining.checked_sub(total) {
                Some(v) => v,
                None => return Err(EscrowError::AmountMismatch),
            };
        }
        let approved = (rec.meta.approved_count as u64 + n) as u32;
        let released = if release { (rec.meta.released_count as u64 + n) as u32 } else { rec.meta.released_count };
        let submitted = if rec.meta.submitted_count as u64 >= n { (rec.meta.submitted_count as u64 - n) as u32 } else { 0 };
        let count = rec.meta.milestone_count;
        let token = rec.meta.token;
        let freelancer = rec.meta.freelancer;
        let mut rec = self.take_escrow(id);
        self.apply_rent(&mut rec, p, transfers);
        Self::mark_batch(&mut rec, &milestone_ids, if release { MS_RELEASED } else { MS_APPROVED }, Some(now));
        rec.meta.approved_count = approved;
        rec.meta.submitted_count = submitted;
        rec.meta.released_count = released;
        rec.meta.remaining_balance = remaining;
        if released == count && count > 0 {
            rec.meta.status = EscrowStatus::Completed;
        }
        if pay {
            transfers.push(Transfer { token, from: self.contract_address, to: freelancer, amount: total });
        }
        proof {
            let o = batch_approve_spec(s0, now, caller, id, milestone_ids@);
            assert(o is Ok);
            assert(rec@.meta =~= o->Ok_0.state.escrows[id].meta);
            assert(rec@ == o->Ok_0.state.escrows[id]);
            lemma_take_put(s0, id, rec@);
            lemma_settled_wf(s0.escrows[id], p);
            lemma_mark_wf(s0.escrows[id].milestones, milestone_ids@, if release { MS_RELEASED } else { MS_APPROVED }, Some(now));
            assert(record_wf(rec@));
            lemma_with_escrow_wf(s0, id, rec@);
        }
        self.put_escrow(id, rec);
        proof {
            let o = batch_approve_spec(s0, now, caller, id, milestone_ids@);
            assert(final(transfers)@ =~= old(transfers)@ + o->Ok_0.transfers);
        }
        Ok(total)
    }

    /// The admin releases several approved milestones with one transfer; returns the total.
    pub fn batch_release_funds(
        &mut self,
        now: u64,
        caller: AccountId,
        id: u64,
        milestone_ids: Vec<u32>,
        transfers: &mut Vec<Transfer>,
    ) -> (r: Result<i128, EscrowError>)
        requires
            old(self)@.wf(),
            settle_fits(old(self)@, id, now),
            milestone_ids@.len() <= u32::MAX,
        ensures
            final(self)@.wf(),
            follows(r, batch_release_spec(old(self)@, now, caller, id, milestone_ids@), old(self)@, final(self)@, old(transfers)@, final(transfers)@),
    {
        let admin = match self.admin {
            Some(a) => a,
            None => return Err(EscrowError::NotInitialized),
        };
        if self.paused {
            return Err(EscrowError::ContractPaused);
        }
        if caller != admin {
            return Err(EscrowError::AdminOnly);
        }
        if milestone_ids.len() == 0 {
            return Err(EscrowError::InvalidMilestoneAmount);
        }
        let p = match self.plan_rent(id, now) {
            Ok(p) => p,
            Err(e) => return Err(e),
        };
        let ghost s0 = self@;
        let rec = self.record_ref(id);
        if let Err(e) = Self::check_lock_time_expired(rec.meta.lock_time, now) {
            return Err(e);
        }
        let total = match Self::scan_batch(rec, &milestone_ids, MS_APPROVED) {
            Ok(t) => t,
            Err(e) => return Err(e),
        };
        proof {
            lemma_scan_ok_valid(rec@.milestones, milestone_ids@, MS_APPROVED, milestone_ids@.len() as int);
            assert(record_wf(s0.escrows[id]));
        }
        let n = milestone_ids.len() as u64;
        if rec.meta.released_count as u64 + n > u32::MAX as u64 {
            return Err(EscrowError::AmountMismatch);
        }
        let remaining = match rec.meta.remaining_balance.checked_sub(total) {
            Some(v) => v,
            None => return Err(EscrowError::AmountMismatch),
        };
        let released = (rec.meta.released_count as u64 + n) as u32;
        let count = rec.meta.milestone_count;
        let token = rec.meta.token;
        let freelancer = rec.meta.freelancer;
        let mut rec = self.take_escrow(id);
        self.apply_rent(&mut rec, p, transfers);
        Self::mark_batch(&mut rec, &milestone_ids, MS_RELEASED, None);
        rec.meta.released_count = released;
        rec.meta.remaining_balance = remaining;
        transfers.push(Transfer { token, from: self.contract_address, to: freelancer, amount: total });
        if released == count && count > 0 {
            rec.meta.status = EscrowStatus::Completed;
        }
        proof {
            let o = batch_release_spec(s0, now, caller, id, milestone_ids@);
            assert(o is Ok);
            assert(rec@.meta =~= o->Ok_0.state.escrows[id].meta);
            assert(rec@ == o->Ok_0.state.escrows[id]);
            lemma_take_put(s0, id, rec@);
            lemma_settled_wf(s0.escrows[id], p);
            lemma_mark_wf(s0.escrows[id].milestones, milestone_ids@, MS_RELEASED, None);
            assert(record_wf(rec@));
            lemma_with_escrow_wf(s0, id, rec@);
        }
        self.put_escrow(id, rec);
        proof {
            let o = batch_release_spec(s0, now, caller, id, milestone_ids@);
            assert(final(transfers)@ =~= old(transfers)@ + o->Ok_0.transfers);
        }
        Ok(total)
    }

    /// Adds several milestones at once, numbered from the current count; the
    /// client pays one rent reserve per new entry. Returns the first new id.
    #[verifier::loop_isolation(false)]
    pub fn batch_add_milestones(
        &mut self,
        now: u64,
        caller: AccountId,
        id: u64,
        titles: Vec<Vec<u8>>,
        description_hashes: Vec<Hash32>,
        amounts: Vec<i128>,
        transfers: &mut Vec<Transfer>,
    ) -> (r: Result<u32, EscrowError>)
        requires
            old(self)@.wf(),
            settle_fits(old(self)@, id, now),
            titles@.len() <= u32::MAX,
        ensures
            final(self)@.wf(),
            follows(
                r,
                batch_add_spec(old(self)@, now, caller, id, view_titles(titles@), description_hashes@, amounts@),
                old(self)@, final(self)@, old(transfers)@, final(transfers)@,
            ),
    {
        let ghost tv = view_titles(titles@);
        let mut titles = titles;
        if self.paused {
            return Err(EscrowError::ContractPaused);
        }
        let n = titles.len();
        if n == 0 || n != description_hashes.len() || n != amounts.len() {
            return Err(EscrowError::InvalidMilestoneAmount);
        }
        let p = match self.plan_rent(id, now) {
            Ok(p) => p,
            Err(e) => return Err(e),
        };
        let ghost s0 = self@;
        let rec = self.record_ref(id);
        if caller != rec.meta.client {
            return Err(EscrowError::ClientOnly);
        }
        if rec.meta.status != EscrowStatus::Active {
            return Err(EscrowError::EscrowNotActive);
        }
        let first = rec.meta.milestone_count;
        if first as u64 + n as u64 > self.effective_max_milestones() as u64 {
            return Err(EscrowError::TooManyMilestones);
        }
        let mut total: i128 = 0;
        let mut i: usize = 0;
        while i < n
            invariant
                0 <= i <= n,
                n == titles@.len(),
                n == amounts@.len(),
                tv == view_titles(titles@),
                batch_add_scan(amounts@, tv, i as int) == Ok::<int, EscrowError>(total as int),
            decreases n - i,
        {
            let amt = amounts[i];
            if amt <= 0 {
                proof { lemma_add_scan_err(amounts@, tv, i + 1, n as int); }
                return Err(EscrowError::InvalidMilestoneAmount);
            }
            if titles[i].len() > MAX_STRING_LEN as usize {
                proof { lemma_add_scan_err(amounts@, tv, i + 1, n as int); }
                return Err(EscrowError::InvalidEscrowAmount);
            }
            total = match total.checked_add(amt) {
                Some(t) => t,
                None => {
                    proof { lemma_add_scan_err(amounts@, tv, i + 1, n as int); }
                    return Err(EscrowError::MilestoneAmountExceedsEscrow);
                },
            };
            i = i + 1;
        }
        proof {
            lemma_add_scan_total(amounts@, tv, n as int);
        }
        let next_allocated = match rec.meta.allocated_amount.checked_add(total) {
            Some(v) => v,
            None => return Err(EscrowError::MilestoneAmountExceedsEscrow),
        };
        if next_allocated > rec.meta.total_amount {
            return Err(EscrowError::MilestoneAmountExceedsEscrow);
        }
        let reserve = ContractStorage::reserve_for_entries(n as i128);
        let new_rent = match p.rent_balance.checked_add(reserve) {
            Some(v) => v,
            None => return Err(EscrowError::AmountMismatch),
        };
        let token = rec.meta.token;
        let mut rec = self.take_escrow(id);
        self.apply_rent(&mut rec, p, transfers);
        if reserve > 0 {
            transfers.push(Transfer { token, from: caller, to: self.contract_address, amount: reserve });
        }
        rec.meta.allocated_amount = next_allocated;
        rec.meta.rent_balance = new_rent;
        let ghost r1 = rec@;
        let ghost added = batch_new_milestones(first, tv, description_hashes@, amounts@);
        let mut k: usize = 0;
        while k < n
            invariant
                0 <= k <= n,
                n == titles@.len(),
                n == amounts@.len(),
                n == description_hashes@.len(),
                first as int + n <= u32::MAX,
                added == batch_new_milestones(first, tv, description_hashes@, amounts@),
                forall|j: int| k <= j < n ==> (#[trigger] titles@[j])@ == tv[j],
                tv.len() == n,
                rec@ == (EscrowRecordView { milestones: r1.milestones + added.take(k as int), ..r1 }),
            decreases n - k,
        {
            let mut title: Vec<u8> = Vec::new();
            std::mem::swap(&mut titles[k], &mut title);
            let m = Milestone {
                id: first + k as u32,
                title,
                description_hash: description_hashes[k],
                amount: amounts[k],
                status: MS_PENDING,
                submitted_at: None,
                resolved_at: None,
                approvals: Vec::new(),
                rejection_reason: None,
            };
            let ghost before = rec.milestones@;
            rec.milestones.push(m);
            proof {
                crate::escrow::lemma_milestones_push(before, m);
                assert(m@ =~= added[k as int]);
                assert(added.take(k + 1) =~= added.take(k as int).push(added[k as int]));
                assert(rec@.milestones =~= r1.milestones + added.take(k + 1));
            }
            k = k + 1;
        }
        rec.meta.milestone_count = first + n as u32;
        proof {
            assert(added.take(n as int) =~= added);
            let o = batch_add_spec(s0, now, caller, id, tv, description_hashes@, amounts@);
            assert(o is Ok);
            assert(rec@.meta =~= o->Ok_0.state.escrows[id].meta);
            assert(rec@.milestones =~= o->Ok_0.state.escrows[id].milestones);
            assert(rec@ == o->Ok_0.state.escrows[id]);
            lemma_take_put(s0, id, rec@);
            lemma_settled_wf(s0.escrows[id], p);
            assert(record_wf(rec@));
            lemma_with_escrow_wf(s0, id, rec@);
        }
        self.put_escrow(id, rec);
        proof {
            let o = batch_add_spec(s0, now, caller, id, tv, description_hashes@, amounts@);
            assert(final(transfers)@ =~= old(transfers)@ + o->Ok_0.transfers);
        }
        Ok(first)
    }
}

} // verus!
