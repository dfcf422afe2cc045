//! Initialization and escrow creation.

use vstd::prelude::*;
use crate::constants::MAX_ESCROW_AMOUNT;
use crate::errors::EscrowError;
use crate::escrow::{
    EscrowContract, EscrowContractView, EscrowMetaView, EscrowRecord, EscrowRecordView, Step,
    contains_account, follows, lemma_with_escrow_wf, record_wf, with_escrow,
};
use crate::rent::{ContractStorage, reserve_spec};
use crate::storage::{StorageManager, STORAGE_VERSION};
use crate::types::{
    AccountId, EscrowMeta, EscrowStatus, Hash32, MultisigConfig, Timelock, Transfer,
};

verus! {

/// State after `initialize`: the admin, a zero escrow counter, the current storage version.
pub open spec fn initialized_state(s: EscrowContractView, admin: AccountId) -> EscrowContractView {
    EscrowContractView {
        admin: Some(admin),
        escrow_counter: Some(0u64),
        storage_version: Some(STORAGE_VERSION),
        ..s
    }
}

/// The admin check shared by administrative entry points.
pub open spec fn admin_check(s: EscrowContractView, caller: AccountId) -> Result<(), EscrowError> {
    match s.admin {
        None => Err(EscrowError::NotInitialized),
        Some(a) => if caller != a { Err(EscrowError::AdminOnly) } else { Ok(()) },
    }
}

/// Signer list of a new escrow: the given signers, with the client added when absent.
pub open spec fn signers_with_client(signers: Seq<AccountId>, client: AccountId) -> Seq<AccountId> {
    if signers.contains(client) { signers } else { signers.push(client) }
}

/// Validation of a new escrow, in the order the contract checks; a bridged
/// token must have been registered as approved (other tokens pass).
pub open spec fn create_checks(
    s: EscrowContractView,
    now: u64,
    client: AccountId,
    freelancer: AccountId,
    token: AccountId,
    total_amount: i128,
    arbiter: Option<AccountId>,
    deadline: Option<u64>,
    lock_time: Option<u64>,
) -> Result<(), EscrowError> {
    if s.admin is None {
        Err(EscrowError::NotInitialized)
    } else if s.paused {
        Err(EscrowError::ContractPaused)
    } else if client == freelancer {
        Err(EscrowError::Unauthorized)
    } else if arbiter is Some && (arbiter->0 == client || arbiter->0 == freelancer) {
        Err(EscrowError::Unauthorized)
    } else if total_amount <= 0 || total_amount > MAX_ESCROW_AMOUNT {
        Err(EscrowError::InvalidEscrowAmount)
    } else if deadline is Some && deadline->0 <= now {
        Err(EscrowError::InvalidDeadline)
    } else if lock_time is Some && lock_time->0 <= now {
        Err(EscrowError::InvalidLockTime)
    } else if s.wrapped_tokens.contains_key(token) && !s.wrapped_tokens[token].is_approved {
        Err(EscrowError::WrappedTokenNotApproved)
    } else {
        Ok(())
    }
}

/// Header of a new escrow.
pub open spec fn new_meta(
    id: u64,
    now: u64,
    client: AccountId,
    freelancer: AccountId,
    token: AccountId,
    total_amount: i128,
    brief_hash: Hash32,
    arbiter: Option<AccountId>,
    deadline: Option<u64>,
    lock_time: Option<u64>,
    signers: Seq<AccountId>,
    rent: i128,
) -> EscrowMetaView {
    EscrowMetaView {
        escrow_id: id,
        client,
        freelancer,
        token,
        total_amount,
        allocated_amount: 0,
        remaining_balance: total_amount,
        status: EscrowStatus::Active,
        milestone_count: 0,
        approved_count: 0,
        released_count: 0,
        submitted_count: 0,
        arbiter,
        buyer_signers: signers,
        created_at: now,
        deadline,
        lock_time,
        lock_time_extension: None,
        timelock: None,
        brief_hash,
        rent_balance: rent,
        last_rent_collection_at: now,
    }
}

/// Outcome of creating an escrow: the next id is used, the escrowed amount and
/// the one-entry rent reserve move from the client to the contract.
pub open spec fn create_escrow_spec(
    s: EscrowContractView,
    now: u64,
    client: AccountId,
    freelancer: AccountId,
    token: AccountId,
    total_amount: i128,
    brief_hash: Hash32,
    arbiter: Option<AccountId>,
    deadline: Option<u64>,
    lock_time: Option<u64>,
    signers: Seq<AccountId>,
) -> Result<Step<u64>, EscrowError> {
    match create_checks(s, now, client, freelancer, token, total_amount, arbiter, deadline, lock_time) {
        Err(e) => Err(e),
        Ok(_) => {
            let id = s.counter();
            let rent = reserve_spec(1) as i128;
            let meta = new_meta(
                id, now, client, freelancer, token, total_amount, brief_hash, arbiter, deadline,
                lock_time, signers_with_client(signers, client), rent,
            );
            let rec = EscrowRecordView {
                meta,
                milestones: Seq::empty(),
                recurring: None,
                cancellation: None,
                slash: None,
            };
            let s1 = EscrowContractView { escrow_counter: Some((id + 1) as u64), ..s };
            Ok(Step {
                value: id,
                state: with_escrow(s1, id, rec),
                transfers: seq![
                    Transfer { token, from: client, to: s.contract_address, amount: total_amount },
                    Transfer { token, from: client, to: s.contract_address, amount: rent },
                ],
            })
        },
    }
}

impl EscrowContract {
    /// Records the admin; a contract can be initialized once.
    pub fn initialize(&mut self, admin: AccountId) -> (r: Result<(), EscrowError>)
        requires
            old(self)@.wf(),
        ensures
            final(self)@.wf(),
            old(self)@.admin is Some ==> r == Err::<(), EscrowError>(EscrowError::AlreadyInitialized)
                && final(self)@ == old(self)@,
            old(self)@.admin is None ==> r is Ok && final(self)@ == initialized_state(old(self)@, admin),
    {
        if self.admin.is_some() {
            return Err(EscrowError::AlreadyInitialized);
        }
        self.admin = Some(admin);
        self.escrow_counter = Some(0);
        StorageManager::init_version(self);
        Ok(())
    }

    /// Fails unless the contract has been initialized.
    pub fn require_initialized(&self) -> (r: Result<(), EscrowError>)
        ensures
            r is Ok <==> self@.admin is Some,
            r is Err ==> r == Err::<(), EscrowError>(EscrowError::NotInitialized),
    {
        if self.admin.is_none() {
            return Err(EscrowError::NotInitialized);
        }
        Ok(())
    }

    /// Fails unless the contract is initialized and `caller` is its admin.
    pub fn require_admin(&self, caller: AccountId) -> (r: Result<(), EscrowError>)
        ensures
            r == admin_check(self@, caller),
    {
        match self.admin {
            None => Err(EscrowError::NotInitialized),
            Some(a) => if caller != a { Err(EscrowError::AdminOnly) } else { Ok(()) },
        }
    }

    /// Fails while the contract is paused.
    pub fn require_not_paused(&self) -> (r: Result<(), EscrowError>)
        ensures
            r is Ok <==> !self@.paused,
            r is Err ==> r == Err::<(), EscrowError>(EscrowError::ContractPaused),
    {
        if self.paused {
            return Err(EscrowError::ContractPaused);
        }
        Ok(())
    }

    /// Hands out the next escrow id and advances the counter.
    pub(crate) fn next_escrow_id(&mut self) -> (r: u64)
        requires
            old(self)@.counter() < u64::MAX,
        ensures
            r == old(self)@.counter(),
            final(self)@ == (EscrowContractView { escrow_counter: Some((r + 1) as u64), ..old(self)@ }),
    {
        let id = match self.escrow_counter {
            Some(c) => c,
            None => 0,
        };
        self.escrow_counter = Some(id + 1);
        id
    }

    /// Creates an escrow and locks `total_amount` of `token` in the contract.
    pub fn create_escrow(
        &mut self,
        now: u64,
        client: AccountId,
        freelancer: AccountId,
        token: AccountId,
        total_amount: i128,
        brief_hash: Hash32,
        arbiter: Option<AccountId>,
        deadline: Option<u64>,
        lock_time: Option<u64>,
        timelock: Option<Timelock>,
        multisig_config: MultisigConfig,
        transfers: &mut Vec<Transfer>,
    ) -> (r: Result<u64, EscrowError>)
        requires
            old(self)@.wf(),
            create_checks(old(self)@, now, client, freelancer, token, total_amount, arbiter, deadline, lock_time) is Ok
                ==> old(self)@.counter() < u64::MAX,
        ensures
            final(self)@.wf(),
            follows(
                r,
                create_escrow_spec(
                    old(self)@, now, client, freelancer, token, total_amount, brief_hash, arbiter,
                    deadline, lock_time, Seq::empty(),
                ),
                old(self)@, final(self)@, old(transfers)@, final(transfers)@,
            ),
    {
        self.create_escrow_internal(
            now, client, freelancer, token, total_amount, brief_hash, arbiter, deadline, lock_time,
            None, transfers,
        )
    }

    /// Creates an escrow for a caller that holds the gating NFT: `nft_balance`
    /// is what the NFT contract reports for the caller and `token_id`.
    pub fn create_escrow_with_nft_gate(
        &mut self,
        now: u64,
        nft_balance: u64,
        caller: AccountId,
        nft_contract: AccountId,
        token_id: u64,
        freelancer: AccountId,
        token: AccountId,
        total_amount: i128,
        brief_hash: Hash32,
        arbiter: Option<AccountId>,
        deadline: Option<u64>,
        lock_time: Option<u64>,
        transfers: &mut Vec<Transfer>,
    ) -> (r: Result<u64, EscrowError>)
        requires
            old(self)@.wf(),
            create_checks(old(self)@, now, caller, freelancer, token, total_amount, arbiter, deadline, lock_time) is Ok
                ==> old(self)@.counter() < u64::MAX,
        ensures
            final(self)@.wf(),
            nft_balance == 0 ==> r == Err::<u64, EscrowError>(EscrowError::Unauthorized)
                && final(self)@ == old(self)@ && final(transfers)@ == old(transfers)@,
            nft_balance != 0 ==> follows(
                r,
                create_escrow_spec(
                    old(self)@, now, caller, freelancer, token, total_amount, brief_hash, arbiter,
                    deadline, lock_time, Seq::empty(),
                ),
                old(self)@, final(self)@, old(transfers)@, final(transfers)@,
            ),
    {
        if nft_balance == 0 {
            return Err(EscrowError::Unauthorized);
        }
        self.create_escrow_internal(
            now, caller, freelancer, token, total_amount, brief_hash, arbiter, deadline, lock_time,
            None, transfers,
        )
    }

    /// Creates an escrow whose milestones the listed buyer signers may also approve.
    pub fn create_escrow_with_buyer_signers(
        &mut self,
        now: u64,
        client: AccountId,
        freelancer: AccountId,
        token: AccountId,
        total_amount: i128,
        brief_hash: Hash32,
        arbiter: Option<AccountId>,
        deadline: Option<u64>,
        lock_time: Option<u64>,
        buyer_signers: Vec<AccountId>,
        transfers: &mut Vec<Transfer>,
    ) -> (r: Result<u64, EscrowError>)
        requires
            old(self)@.wf(),
            create_checks(old(self)@, now, client, freelancer, token, total_amount, arbiter, deadline, lock_time) is Ok
                ==> old(self)@.counter() < u64::MAX,
        ensures
            final(self)@.wf(),
            follows(
                r,
                create_escrow_spec(
                    old(self)@, now, client, freelancer, token, total_amount, brief_hash, arbiter,
                    deadline, lock_time, buyer_signers@,
                ),
                old(self)@, final(self)@, old(transfers)@, final(transfers)@,
            ),
    {
        self.create_escrow_internal(
            now, client, freelancer, token, total_amount, brief_hash, arbiter, deadline, lock_time,
            Some(buyer_signers), transfers,
        )
    }

    /// The validation of a new escrow (`create_checks`).
    pub fn new_escrow_checks(
        &self,
        now: u64,
        client: AccountId,
        freelancer: AccountId,
        token: AccountId,
        total_amount: i128,
        arbiter: Option<AccountId>,
        deadline: Option<u64>,
        lock_time: Option<u64>,
    ) -> (r: Result<(), EscrowError>)
        ensures
            r == create_checks(self@, now, client, freelancer, token, total_amount, arbiter, deadline, lock_time),
    {
        if self.admin.is_none() {
            return Err(EscrowError::NotInitialized);
        }
        if self.paused {
            return Err(EscrowError::ContractPaused);
        }
        if client == freelancer {
            return Err(EscrowError::Unauthorized);
        }
        if let Some(a) = arbiter {
            if a == client || a == freelancer {
                return Err(EscrowError::Unauthorized);
            }
        }
        if total_amount <= 0 || total_amount > MAX_ESCROW_AMOUNT {
            return Err(EscrowError::InvalidEscrowAmount);
        }
        if let Some(dl) = deadline {
            if dl <= now {
                return Err(EscrowError::InvalidDeadline);
            }
        }
        if let Some(lt) = lock_time {
            if lt <= now {
                return Err(EscrowError::InvalidLockTime);
            }
        }
        if let Some(info) = self.wrapped_tokens.get(&token) {
            if !info.is_approved {
                return Err(EscrowError::WrappedTokenNotApproved);
            }
        }
        Ok(())
    }

    /// Shared body of the escrow constructors.
    fn create_escrow_internal(
        &mut self,
        now: u64,
        client: AccountId,
        freelancer: AccountId,
        token: AccountId,
        total_amount: i128,
        brief_hash: Hash32,
        arbiter: Option<AccountId>,
        deadline: Option<u64>,
        lock_time: Option<u64>,
        buyer_signers: Option<Vec<AccountId>>,
        transfers: &mut Vec<Transfer>,
    ) -> (r: Result<u64, EscrowError>)
        requires
            old(self)@.wf(),
            create_checks(old(self)@, now, client, freelancer, token, total_amount, arbiter, deadline, lock_time) is Ok
                ==> old(self)@.counter() < u64::MAX,
        ensures
            final(self)@.wf(),
            follows(
                r,
                create_escrow_spec(
                    old(self)@, now, client, freelancer, token, total_amount, brief_hash, arbiter,
                    deadline, lock_time, match buyer_signers { Some(v) => v@, None => Seq::empty() },
                ),
                old(self)@, final(self)@, old(transfers)@, final(transfers)@,
            ),
    {
        if let Err(e) = self.new_escrow_checks(
            now, client, freelancer, token, total_amount, arbiter, deadline, lock_time,
        ) {
            return Err(e);
        }
        let mut signers = match buyer_signers {
            Some(v) => v,
            None => Vec::new(),
        };
        let ghost given = signers@;
        if !contains_account(&signers, client) {
            signers.push(client);
        }
        assert(signers@ == crate::escrow_lifecycle::signers_with_client(given, client));
        let ghost s0 = self@;
        let id = self.next_escrow_id();
        let rent_reserve = ContractStorage::reserve_for_entries(1);
        transfers.push(Transfer { token, from: client, to: self.contract_address, amount: total_amount });
        if rent_reserve > 0 {
            transfers.push(Transfer { token, from: client, to: self.contract_address, amount: rent_reserve });
        }
        let rec = EscrowRecord {
            meta: EscrowMeta {
                escrow_id: id,
                client,
                freelancer,
                token,
                total_amount,
                allocated_amount: 0,
                remaining_balance: total_amount,
                status: EscrowStatus::Active,
                milestone_count: 0,
                approved_count: 0,
                released_count: 0,
                submitted_count: 0,
                arbiter,
                buyer_signers: signers,
                created_at: now,
                deadline,
                lock_time,
                lock_time_extension: None,
                timelock: None,
                brief_hash,
                rent_balance: rent_reserve,
                last_rent_collection_at: now,
            },
            milestones: Vec::new(),
            recurring: None,
            cancellation: None,
            slash: None,
        };
        proof {
            assert(rec@.milestones =~= Seq::<crate::escrow::MilestoneView>::empty());
            assert(record_wf(rec@));
            lemma_with_escrow_wf(self@, id, rec@);
        }
        let ghost s1 = self@;
        self.put_escrow(id, rec);
        proof {
            let o = create_escrow_spec(
                s0, now, client, freelancer, token, total_amount, brief_hash, arbiter, deadline,
                lock_time, given,
            );
            assert(o is Ok);
            assert(o->Ok_0.state.escrows[id] =~= rec@);
            assert(self@ =~= o->Ok_0.state);
            assert(final(transfers)@ =~= old(transfers)@ + o->Ok_0.transfers);
        }
        Ok(id)
    }
}

} // verus!
