//! Range conditions of the entry points, as executable tests.
//!
//! Several entry points require that their arithmetic stays within the
//! integer types, on exactly the inputs where the contract would otherwise
//! abort. A caller outside the verified code tests these first and aborts
//! where they fail.

use vstd::prelude::*;
use crate::constants::{CANCELLATION_DISPUTE_PERIOD, MAX_STRING_LEN, SLASH_DISPUTE_PERIOD};
use crate::escrow::{EscrowContract, settle_fits, settled_record};
use crate::escrow_lifecycle::create_checks;
use crate::escrow_recurring::recurring_checks;
use crate::escrow_reputation::rep_update_fits;
use crate::escrow_slash::{
    dispute_slash_prechecks, execute_fits, finalize_prechecks, request_prechecks, resolve_fits,
};
use crate::types::{AccountId, EscrowStatus, RecurringInterval};
use crate::gov_types::{ProposalPayload, ProposalStatus, ProposalType};
use crate::governance::{
    create_fits, finalize_fits, payload_fits_type, vote_fits, GovernanceContract,
};

verus! {

broadcast use vstd::std_specs::hash::group_hash_axioms;

impl EscrowContract {
    /// Whether creating an escrow can hand out an id: it can, unless the
    /// creation would be accepted with the counter at its maximum.
    pub fn creation_fits(
        &self,
        now: u64,
        client: AccountId,
        freelancer: AccountId,
        token: AccountId,
        total_amount: i128,
        arbiter: Option<AccountId>,
        deadline: Option<u64>,
        lock_time: Option<u64>,
    ) -> (r: bool)
        ensures
            r == (create_checks(self@, now, client, freelancer, token, total_amount, arbiter, deadline, lock_time) is Ok
                ==> self@.counter() < u64::MAX),
    {
        let counter: u64 = match self.escrow_counter {
            Some(c) => c,
            None => 0,
        };
        counter < u64::MAX
            || self.new_escrow_checks(now, client, freelancer, token, total_amount, arbiter, deadline, lock_time).is_err()
    }

    /// Whether creating a recurring escrow can hand out an id.
    pub fn recurring_creation_fits(
        &self,
        now: u64,
        client: AccountId,
        freelancer: AccountId,
        payment_amount: i128,
        interval: RecurringInterval,
        start_time: u64,
        end_date: Option<u64>,
        number_of_payments: Option<u32>,
    ) -> (r: bool)
        ensures
            r == (recurring_checks(self@, now, client, freelancer, payment_amount, interval, start_time, end_date, number_of_payments) is Ok
                ==> self@.counter() < u64::MAX),
    {
        let counter: u64 = match self.escrow_counter {
            Some(c) => c,
            None => 0,
        };
        counter < u64::MAX
            || self.new_recurring_checks(now, client, freelancer, payment_amount, interval, start_time, end_date, number_of_payments).is_err()
    }

    /// Whether requesting a cancellation at `now` can set its dispute deadline.
    pub fn cancellation_request_fits(&self, now: u64, caller: AccountId, id: u64, reason: &Vec<u8>) -> (r: bool)
        requires
            self@.wf(),
            settle_fits(self@, id, now),
        ensures
            r == (request_prechecks(self@, now, caller, id, reason@) is Ok ==> now + CANCELLATION_DISPUTE_PERIOD <= u64::MAX),
    {
        if now <= u64::MAX - CANCELLATION_DISPUTE_PERIOD {
            return true;
        }
        if self.admin.is_none() || self.paused {
            return true;
        }
        if self.plan_rent(id, now).is_err() {
            return true;
        }
        let rec = self.record_ref(id);
        !((caller == rec.meta.client || caller == rec.meta.freelancer)
            && reason.len() <= MAX_STRING_LEN as usize
            && rec.meta.status == EscrowStatus::Active
            && rec.cancellation.is_none())
    }

    /// Whether executing the cancellation of escrow `id` keeps the slash and
    /// the requester's counters in range (`execute_fits`).
    pub fn cancellation_execution_fits(&self, now: u64, id: u64) -> (r: bool)
        requires
            self@.wf(),
            settle_fits(self@, id, now),
        ensures
            r == execute_fits(self@, now, id),
    {
        if self.admin.is_none() || self.paused {
            return true;
        }
        let p = match self.plan_rent(id, now) {
            Ok(p) => p,
            Err(_) => return true,
        };
        let rec = self.record_ref(id);
        proof {
            assert(settled_record(self@.escrows[id], p).cancellation == self@.escrows[id].cancellation);
        }
        let (requester, approved, deadline, disputed) = match &rec.cancellation {
            None => return true,
            Some(req) => (req.requester, req.counterparty_approved, req.dispute_deadline, req.disputed),
        };
        if !approved && now < deadline {
            return true;
        }
        if disputed {
            return true;
        }
        let scaled = match rec.meta.remaining_balance.checked_mul(10) {
            Some(v) => v,
            None => return false,
        };
        let slash = scaled / 100;
        let rep = self.load_reputation(now, requester);
        rep.slash_count < u32::MAX && rep.total_slashed.checked_add(slash).is_some()
    }

    /// Whether finalizing the slash of escrow `id` can compute the end of its
    /// dispute window.
    pub fn slash_finalization_fits(&self, id: u64) -> (r: bool)
        ensures
            r == (finalize_prechecks(self@, id) is Ok
                ==> finalize_prechecks(self@, id)->Ok_0.slashed_at + SLASH_DISPUTE_PERIOD <= u64::MAX),
    {
        if self.admin.is_none() || self.paused {
            return true;
        }
        match self.escrows.get(&id) {
            None => true,
            Some(rec) => match &rec.slash {
                None => true,
                Some(sr) => sr.disputed || sr.slashed_at <= u64::MAX - SLASH_DISPUTE_PERIOD,
            },
        }
    }

    /// Whether disputing the slash of escrow `id` can compute the end of its
    /// dispute window.
    pub fn slash_dispute_fits(&self, now: u64, caller: AccountId, id: u64) -> (r: bool)
        requires
            self@.wf(),
            settle_fits(self@, id, now),
        ensures
            r == (dispute_slash_prechecks(self@, now, caller, id) is Ok
                ==> dispute_slash_prechecks(self@, now, caller, id)->Ok_0.1.slash->0.slashed_at + SLASH_DISPUTE_PERIOD <= u64::MAX),
    {
        if self.paused {
            return true;
        }
        let p = match self.plan_rent(id, now) {
            Ok(p) => p,
            Err(_) => return true,
        };
        let rec = self.record_ref(id);
        proof {
            assert(settled_record(self@.escrows[id], p).slash == self@.escrows[id].slash);
        }
        match &rec.slash {
            None => true,
            Some(sr) => caller != sr.slashed_user || sr.disputed || sr.slashed_at <= u64::MAX - SLASH_DISPUTE_PERIOD,
        }
    }

    /// Whether resolving the dispute of escrow `id` with these shares keeps
    /// the sum and both parties' dispute counters in range (`resolve_fits`).
    pub fn dispute_resolution_fits(&self, now: u64, caller: AccountId, id: u64, client_amount: i128, freelancer_amount: i128) -> (r: bool)
        requires
            self@.wf(),
            settle_fits(self@, id, now),
        ensures
            r == resolve_fits(self@, now, caller, id, client_amount, freelancer_amount),
    {
        if self.paused {
            return true;
        }
        let p = match self.plan_rent(id, now) {
            Ok(p) => p,
            Err(_) => return true,
        };
        let rec = self.record_ref(id);
        proof {
            assert(settled_record(self@.escrows[id], p).meta.arbiter == self@.escrows[id].meta.arbiter);
        }
        let is_arbiter = match rec.meta.arbiter {
            Some(a) => a == caller,
            None => false,
        };
        if !is_arbiter && self.require_admin(caller).is_err() {
            return true;
        }
        if rec.meta.status != EscrowStatus::Disputed {
            return true;
        }
        if client_amount.checked_add(freelancer_amount).is_none() {
            return false;
        }
        let client = rec.meta.client;
        let freelancer = rec.meta.freelancer;
        let client_rep = self.load_reputation(now, client);
        if client_rep.disputed_escrows == u32::MAX {
            return false;
        }
        if freelancer == client {
            client_rep.disputed_escrows + 1 < u32::MAX
        } else {
            self.load_reputation(now, freelancer).disputed_escrows < u32::MAX
        }
    }

    /// Whether a reputation update of `address` keeps its counters in range.
    pub fn reputation_update_fits(&self, now: u64, address: AccountId, completed: bool, disputed: bool, volume: i128) -> (r: bool)
        requires
            self@.wf(),
        ensures
            r == (!self@.paused ==> rep_update_fits(self@.reputation_of(address, now), completed, disputed, volume)),
    {
        if self.paused {
            return true;
        }
        let rep = self.load_reputation(now, address);
        let q = volume / 1000;
        let capped = if q <= 10 { q } else { 10 };
        let bonus = capped as u64;
        (!completed || (bonus <= u64::MAX - 10 && rep.completed_escrows < u32::MAX))
            && (!disputed || rep.disputed_escrows < u32::MAX)
    }
}

impl GovernanceContract {
    /// Whether creating a proposal at `now` stays within the integer types
    /// (`create_fits`).
    pub fn proposal_fits(
        &self,
        now: u64,
        power: i128,
        proposal_type: ProposalType,
        payload: &ProposalPayload,
        supply_snapshot: i128,
    ) -> (r: bool)
        ensures
            r == create_fits(self@, now, power, proposal_type, payload@, supply_snapshot),
    {
        if self.admin.is_none() {
            return true;
        }
        let config = match self.config {
            Some(c) => c,
            None => return true,
        };
        if power < config.proposal_threshold {
            return true;
        }
        if !payload_fits_type(proposal_type, payload) {
            return true;
        }
        let span: u128 = now as u128 + config.voting_delay as u128 + config.voting_period as u128
            + config.timelock_delay as u128;
        if span > u64::MAX as u128 {
            return false;
        }
        if supply_snapshot < 0 {
            return true;
        }
        let count: u64 = match self.proposal_counter {
            Some(c) => c,
            None => 0,
        };
        count < u64::MAX
    }

    /// Whether a vote adds to its tally within `i128` (`vote_fits`).
    pub fn vote_fits_at(&self, now: u64, voter: AccountId, proposal_id: u64, support: bool, power: i128) -> (r: bool)
        ensures
            r == vote_fits(self@, now, voter, proposal_id, support, power),
    {
        if self.admin.is_none() {
            return true;
        }
        let (status, vote_start, vote_end, votes_for, votes_against) = match self.proposals.get(&proposal_id) {
            None => return true,
            Some(p) => (p.status, p.vote_start, p.vote_end, p.votes_for, p.votes_against),
        };
        if status != ProposalStatus::Active || now < vote_start || now > vote_end {
            return true;
        }
        let already = match self.ballots.get(&proposal_id) {
            Some(b) => b.contains(&voter),
            None => false,
        };
        if already || self.config.is_none() || power <= 0 {
            return true;
        }
        if support {
            votes_for <= i128::MAX - power
        } else {
            votes_against <= i128::MAX - power
        }
    }

    /// Whether finalizing a proposal evaluates it within `i128`
    /// (`finalize_fits`).
    pub fn finalization_fits(&self, now: u64, proposal_id: u64) -> (r: bool)
        ensures
            r == finalize_fits(self@, now, proposal_id),
    {
        if self.admin.is_none() {
            return true;
        }
        let (status, vote_end, votes_for, votes_against, snapshot) = match self.proposals.get(&proposal_id) {
            None => return true,
            Some(p) => (p.status, p.vote_end, p.votes_for, p.votes_against, p.total_supply_snapshot),
        };
        if status != ProposalStatus::Active || now <= vote_end {
            return true;
        }
        let config = match self.config {
            Some(c) => c,
            None => return true,
        };
        let total = match votes_for.checked_add(votes_against) {
            Some(t) => t,
            None => return false,
        };
        snapshot.checked_mul(config.quorum_bps as i128).is_some()
            && total.checked_mul(config.approval_threshold_bps as i128).is_some()
    }
}

} // verus!
