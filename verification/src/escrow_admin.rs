//! Administration: pause switch, milestone cap, oracle and bridge addresses,
//! upgrades, meta-transactions.

use vstd::prelude::*;
use crate::constants::MAX_MILESTONE_CAP;
use crate::errors::EscrowError;
use crate::escrow::{EscrowContract, EscrowContractView};
use crate::escrow_lifecycle::admin_check;
use crate::storage::{StorageManager, migrate_spec};
use crate::types::{AccountId, Hash32, MetaTransaction, WrappedTokenInfo};

verus! {

/// State with the pause flag written as `p`.
pub open spec fn with_paused(s: EscrowContractView, p: bool) -> EscrowContractView {
    EscrowContractView { paused: p, pause_recorded: true, ..s }
}

/// Outcome of `pause`: the admin pauses; pausing a paused contract changes nothing.
pub open spec fn pause_spec(s: EscrowContractView, caller: AccountId) -> Result<EscrowContractView, EscrowError> {
    match admin_check(s, caller) {
        Err(e) => Err(e),
        Ok(_) => if s.paused { Ok(s) } else { Ok(with_paused(s, true)) },
    }
}

/// Outcome of `unpause`: the admin resumes; unpausing a running contract changes nothing.
pub open spec fn unpause_spec(s: EscrowContractView, caller: AccountId) -> Result<EscrowContractView, EscrowError> {
    match admin_check(s, caller) {
        Err(e) => Err(e),
        Ok(_) => if !s.paused { Ok(s) } else { Ok(with_paused(s, false)) },
    }
}

/// A call that changes only the state: `r` and the state after are what `o` prescribes.
pub open spec fn follows_state(r: Result<(), EscrowError>, o: Result<EscrowContractView, EscrowError>, s0: EscrowContractView, s1: EscrowContractView) -> bool {
    match o {
        Ok(s) => r is Ok && s1 == s,
        Err(e) => r == Err::<(), EscrowError>(e) && s1 == s0,
    }
}

/// Outcome of `set_max_milestones`: the admin sets a cap between 1 and 100.
pub open spec fn set_max_spec(s: EscrowContractView, caller: AccountId, new_max: u32) -> Result<EscrowContractView, EscrowError> {
    match admin_check(s, caller) {
        Err(e) => Err(e),
        Ok(_) => if new_max == 0 || new_max > MAX_MILESTONE_CAP {
            Err(EscrowError::InvalidMilestoneAmount)
        } else {
            Ok(EscrowContractView { max_milestones: Some(new_max), ..s })
        },
    }
}

/// Outcome of `upgrade`: the admin upgrades after migrating the storage.
pub open spec fn upgrade_spec(s: EscrowContractView, caller: AccountId) -> Result<EscrowContractView, EscrowError> {
    match admin_check(s, caller) {
        Err(e) => Err(e),
        Ok(_) => migrate_spec(s),
    }
}

/// Outcome of recording a meta-transaction nonce: nonces must strictly increase.
pub open spec fn nonce_spec(s: EscrowContractView, signer: AccountId, nonce: u64) -> Result<EscrowContractView, EscrowError> {
    let last = if s.meta_tx_nonces.contains_key(signer) { s.meta_tx_nonces[signer] } else { 0 };
    if nonce <= last {
        Err(EscrowError::Unauthorized)
    } else {
        Ok(EscrowContractView { meta_tx_nonces: s.meta_tx_nonces.insert(signer, nonce), ..s })
    }
}

impl EscrowContract {
    /// Writes the pause flag.
    pub(crate) fn set_paused(&mut self, paused: bool)
        ensures
            final(self)@ == with_paused(old(self)@, paused),
    {
        self.paused = paused;
        self.pause_recorded = true;
    }

    /// The admin pauses the contract: state-changing entry points are refused until unpaused.
    pub fn pause(&mut self, caller: AccountId) -> (r: Result<(), EscrowError>)
        requires
            old(self)@.wf(),
        ensures
            final(self)@.wf(),
            follows_state(r, pause_spec(old(self)@, caller), old(self)@, final(self)@),
    {
        if let Err(e) = self.require_admin(caller) {
            return Err(e);
        }
        if self.paused {
            return Ok(());
        }
        self.set_paused(true);
        Ok(())
    }

    /// The admin unpauses the contract.
    pub fn unpause(&mut self, caller: AccountId) -> (r: Result<(), EscrowError>)
        requires
            old(self)@.wf(),
        ensures
            final(self)@.wf(),
            follows_state(r, unpause_spec(old(self)@, caller), old(self)@, final(self)@),
    {
        if let Err(e) = self.require_admin(caller) {
            return Err(e);
        }
        if !self.paused {
            return Ok(());
        }
        self.set_paused(false);
        Ok(())
    }

    /// Whether the contract is paused.
    pub fn is_paused(&self) -> (r: bool)
        ensures
            r == self@.paused,
    {
        self.paused
    }

    /// The admin, once initialized.
    pub fn get_admin(&self) -> (r: Result<AccountId, EscrowError>)
        ensures
            match self@.admin {
                Some(a) => r == Ok::<AccountId, EscrowError>(a),
                None => r == Err::<AccountId, EscrowError>(EscrowError::NotInitialized),
            },
    {
        match self.admin {
            Some(a) => Ok(a),
            None => Err(EscrowError::NotInitialized),
        }
    }

    /// Number of escrows created so far.
    pub fn escrow_count(&self) -> (r: u64)
        ensures
            r == self@.counter(),
    {
        match self.escrow_counter {
            Some(c) => c,
            None => 0,
        }
    }

    /// The admin sets the milestone cap of new milestones (1 to 100).
    pub fn set_max_milestones(&mut self, caller: AccountId, new_max: u32) -> (r: Result<(), EscrowError>)
        requires
            old(self)@.wf(),
        ensures
            final(self)@.wf(),
            follows_state(r, set_max_spec(old(self)@, caller, new_max), old(self)@, final(self)@),
    {
        if let Err(e) = self.require_admin(caller) {
            return Err(e);
        }
        if new_max == 0 || new_max > MAX_MILESTONE_CAP {
            return Err(EscrowError::InvalidMilestoneAmount);
        }
        self.max_milestones = Some(new_max);
        Ok(())
    }

    /// The admin records the price oracle.
    pub fn set_oracle(&mut self, caller: AccountId, oracle: AccountId) -> (r: Result<(), EscrowError>)
        requires
            old(self)@.wf(),
        ensures
            final(self)@.wf(),
            follows_state(r, match admin_check(old(self)@, caller) {
                Err(e) => Err(e),
                Ok(_) => Ok(EscrowContractView { oracle: Some(oracle), ..old(self)@ }),
            }, old(self)@, final(self)@),
    {
        if let Err(e) = self.require_admin(caller) {
            return Err(e);
        }
        self.oracle = Some(oracle);
        Ok(())
    }

    /// The admin records the fallback price oracle.
    pub fn set_fallback_oracle(&mut self, caller: AccountId, oracle: AccountId) -> (r: Result<(), EscrowError>)
        requires
            old(self)@.wf(),
        ensures
            final(self)@.wf(),
            follows_state(r, match admin_check(old(self)@, caller) {
                Err(e) => Err(e),
                Ok(_) => Ok(EscrowContractView { fallback_oracle: Some(oracle), ..old(self)@ }),
            }, old(self)@, final(self)@),
    {
        if let Err(e) = self.require_admin(caller) {
            return Err(e);
        }
        self.fallback_oracle = Some(oracle);
        Ok(())
    }

    /// The admin records the Wormhole bridge contract.
    pub fn set_wormhole_bridge(&mut self, caller: AccountId, bridge_addr: AccountId) -> (r: Result<(), EscrowError>)
        requires
            old(self)@.wf(),
        ensures
            final(self)@.wf(),
            follows_state(r, match admin_check(old(self)@, caller) {
                Err(e) => Err(e),
                Ok(_) => Ok(EscrowContractView { wormhole_bridge: Some(bridge_addr), ..old(self)@ }),
            }, old(self)@, final(self)@),
    {
        if let Err(e) = self.require_admin(caller) {
            return Err(e);
        }
        self.wormhole_bridge = Some(bridge_addr);
        Ok(())
    }

    /// The admin registers a bridged token; `info.is_approved` decides whether
    /// escrows may be funded in it. A later registration of the same address
    /// replaces the earlier one.
    pub fn register_wrapped_token(&mut self, caller: AccountId, info: WrappedTokenInfo) -> (r: Result<(), EscrowError>)
        requires
            old(self)@.wf(),
        ensures
            final(self)@.wf(),
            follows_state(r, match admin_check(old(self)@, caller) {
                Err(e) => Err(e),
                Ok(_) => Ok(EscrowContractView {
                    wrapped_tokens: old(self)@.wrapped_tokens.insert(info.stellar_address, info),
                    ..old(self)@
                }),
            }, old(self)@, final(self)@),
    {
        if let Err(e) = self.require_admin(caller) {
            return Err(e);
        }
        self.wrapped_tokens.insert(info.stellar_address, info);
        Ok(())
    }

    /// The registration of bridged token `token`, if any.
    pub fn get_wrapped_token_info(&self, token: AccountId) -> (r: Option<WrappedTokenInfo>)
        ensures
            r == (if self@.wrapped_tokens.contains_key(token) {
                Some(self@.wrapped_tokens[token])
            } else {
                None::<WrappedTokenInfo>
            }),
    {
        match self.wrapped_tokens.get(&token) {
            Some(info) => Some(*info),
            None => None,
        }
    }

    /// The admin upgrades the contract code to `new_wasm_hash`, after
    /// migrating the storage; installing the code is left to the host.
    pub fn upgrade(&mut self, caller: AccountId, new_wasm_hash: Hash32) -> (r: Result<(), EscrowError>)
        requires
            old(self)@.wf(),
        ensures
            final(self)@.wf(),
            follows_state(r, upgrade_spec(old(self)@, caller), old(self)@, final(self)@),
    {
        if let Err(e) = self.require_admin(caller) {
            return Err(e);
        }
        StorageManager::migrate(self)
    }

    /// Accepts a meta-transaction whose deadline has not passed; signature and
    /// nonce are not checked.
    pub fn execute_meta_transaction(&self, now: u64, meta_tx: &MetaTransaction) -> (r: Result<(), EscrowError>)
        ensures
            r is Err <==> meta_tx.deadline < now,
            r is Err ==> r == Err::<(), EscrowError>(EscrowError::DeadlineExpired),
    {
        if meta_tx.deadline < now {
            return Err(EscrowError::DeadlineExpired);
        }
        Ok(())
    }

    /// Records `nonce` for `signer`, refusing any nonce not above the last one.
    pub fn validate_and_update_nonce(&mut self, signer: AccountId, nonce: u64) -> (r: Result<(), EscrowError>)
        requires
            old(self)@.wf(),
        ensures
            final(self)@.wf(),
            follows_state(r, nonce_spec(old(self)@, signer, nonce), old(self)@, final(self)@),
    {
        let last = match self.meta_tx_nonces.get(&signer) {
            Some(n) => *n,
            None => 0,
        };
        if nonce <= last {
            return Err(EscrowError::Unauthorized);
        }
        self.meta_tx_nonces.insert(signer, nonce);
        Ok(())
    }

    /// Position of an interrupted migration (0 when none).
    pub fn get_migration_cursor(&self) -> (r: u64)
        ensures
            r == match self@.migration_cursor { Some(c) => c, None => 0 },
    {
        match self.migration_cursor {
            Some(c) => c,
            None => 0,
        }
    }

    /// Records the position of an interrupted migration.
    pub fn set_migration_cursor(&mut self, cursor: u64)
        requires
            old(self)@.wf(),
        ensures
            final(self)@.wf(),
            final(self)@ == (EscrowContractView { migration_cursor: Some(cursor), ..old(self)@ }),
    {
        self.migration_cursor = Some(cursor);
    }
}

} // verus!
