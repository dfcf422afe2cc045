use escrow_contract::errors::EscrowError;
use escrow_contract::escrow::EscrowContract;
use escrow_contract::storage::{EscrowStateV1, StorageKey, StorageManager, STORAGE_VERSION};
use escrow_contract::types::{EscrowStatus, Milestone, PackedDataKey, DataKey, MS_APPROVED, MS_PENDING};

#[test]
fn test_storage_version_constant() {
    assert_eq!(STORAGE_VERSION, 2);
}

#[test]
fn test_storage_key_has_version_variant() {
    let _ = StorageKey::Version;
}

#[test]
fn test_escrow_state_v1_has_required_fields() {
    fn check_v1_fields(_: &EscrowStateV1) {}
    let _ = check_v1_fields;
}

fn legacy_milestone(id: u32, amount: i128, status: u32) -> Milestone {
    Milestone {
        id,
        title: b"Legacy".to_vec(),
        description_hash: [7; 32],
        amount,
        status,
        submitted_at: None,
        resolved_at: None,
        approvals: Vec::new(),
        rejection_reason: None,
    }
}

fn legacy_escrow(id: u64) -> EscrowStateV1 {
    EscrowStateV1 {
        escrow_id: id,
        client: 11,
        freelancer: 12,
        token: 13,
        total_amount: 500,
        remaining_balance: 500,
        status: EscrowStatus::Active,
        milestones: vec![legacy_milestone(0, 200, MS_APPROVED), legacy_milestone(1, 100, MS_PENDING)],
        arbiter: None,
        created_at: 40,
        deadline: None,
        lock_time: None,
        lock_time_extension: None,
        brief_hash: [3; 32],
    }
}

#[test]
fn fresh_contract_reports_version_one_until_initialized() {
    let mut c = EscrowContract::new(1_000);
    assert_eq!(StorageManager::get_version(&c), 1);
    assert!(StorageManager::needs_migration(&c));
    StorageManager::init_version(&mut c);
    assert_eq!(StorageManager::get_version(&c), STORAGE_VERSION);
    assert!(!StorageManager::needs_migration(&c));
}

#[test]
fn migration_moves_legacy_escrows_to_granular_entries() {
    let mut c = EscrowContract::new(1_000);
    c.escrow_counter = Some(2);
    c.legacy_escrows.insert(0, legacy_escrow(0));
    c.legacy_escrows.insert(1, legacy_escrow(1));
    c.legacy_escrows.insert(5, legacy_escrow(5));
    assert!(c.persistent_has(DataKey::Escrow(1)));

    assert_eq!(StorageManager::migrate(&mut c), Ok(()));
    assert_eq!(StorageManager::get_version(&c), 2);
    assert!(!c.persistent_has(DataKey::Escrow(1)));
    assert!(c.packed_has(PackedDataKey::EscrowMeta(1)));
    assert!(c.packed_has(PackedDataKey::Milestone(1, 1)));

    let meta = c.stored_meta(1).unwrap();
    assert_eq!(meta.milestone_count, 2);
    assert_eq!(meta.allocated_amount, 300);
    assert_eq!(meta.approved_count, 1);
    assert_eq!(meta.remaining_balance, 500);
    assert_eq!(meta.rent_balance, 0);

    // the first id handed out is migrated too; an id never handed out is left alone
    assert!(c.packed_has(PackedDataKey::EscrowMeta(0)));
    assert!(!c.persistent_has(DataKey::Escrow(0)));
    assert!(c.persistent_has(DataKey::Escrow(5)));
    assert!(!c.packed_has(PackedDataKey::EscrowMeta(5)));

    // A second migration changes nothing.
    assert_eq!(StorageManager::migrate(&mut c), Ok(()));
    assert_eq!(c.stored_meta(1).unwrap().allocated_amount, 300);
}

#[test]
fn migration_refuses_a_newer_layout() {
    let mut c = EscrowContract::new(1_000);
    StorageManager::set_version(&mut c, 3);
    assert_eq!(StorageManager::migrate(&mut c), Err(EscrowError::StorageMigrationFailed));
    assert_eq!(StorageManager::get_version(&c), 3);
}

#[test]
fn upgrade_migrates_and_is_admin_only() {
    let mut c = EscrowContract::new(1_000);
    c.initialize(1).unwrap();
    assert_eq!(c.upgrade(2, [0; 32]), Err(EscrowError::AdminOnly));
    assert_eq!(c.upgrade(1, [0; 32]), Ok(()));
    assert_eq!(StorageManager::get_version(&c), STORAGE_VERSION);
}
