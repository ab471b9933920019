use traqora_contracts::address::Address;
use traqora_contracts::storage_version::{
    get_slot_range, VersionError, VersionedStorage, AIRLINE_CONTRACT, BOOKING_CONTRACT,
    DISPUTE_SLOTS, RESERVED_SLOTS, TOKEN_CONTRACT,
};

#[test]
fn test_storage_version_initialization() {
    let mut store = VersionedStorage::new();
    assert_eq!(store.get_storage_version(BOOKING_CONTRACT), 1);
    store.initialize_storage_version(BOOKING_CONTRACT);
    assert_eq!(store.get_storage_version(BOOKING_CONTRACT), 1);
    store.set_storage_version(BOOKING_CONTRACT, 0);
    store.initialize_storage_version(BOOKING_CONTRACT);
    assert_eq!(store.get_storage_version(BOOKING_CONTRACT), 1);
}

#[test]
fn test_storage_version_set_and_get() {
    let mut store = VersionedStorage::new();
    store.set_storage_version(BOOKING_CONTRACT, 2);
    assert_eq!(store.get_storage_version(BOOKING_CONTRACT), 2);
    store.set_storage_version(BOOKING_CONTRACT, 5);
    assert_eq!(store.get_storage_version(BOOKING_CONTRACT), 5);
}

#[test]
fn test_needs_migration() {
    let mut store = VersionedStorage::new();
    assert!(store.needs_migration(BOOKING_CONTRACT, 2));
    assert!(store.needs_migration(BOOKING_CONTRACT, 5));
    assert!(!store.needs_migration(BOOKING_CONTRACT, 1));
    store.set_storage_version(BOOKING_CONTRACT, 3);
    assert!(!store.needs_migration(BOOKING_CONTRACT, 2));
    assert!(!store.needs_migration(BOOKING_CONTRACT, 3));
    assert!(store.needs_migration(BOOKING_CONTRACT, 4));
}

#[test]
fn test_record_and_get_migration() {
    let mut store = VersionedStorage::new();
    store.record_migration(0, BOOKING_CONTRACT, 1, 2, "manual".to_string(), "test_mig".to_string());
    let count = store.get_migration_count(BOOKING_CONTRACT);
    assert_eq!(count, 1);
    let record = store.get_migration(BOOKING_CONTRACT, 1).unwrap();
    assert_eq!(record.from_version, 1);
    assert_eq!(record.to_version, 2);
    assert_eq!(record.migration_type, "manual");
    assert!(store.get_migration(BOOKING_CONTRACT, 0).is_none());
    assert!(store.get_migration(BOOKING_CONTRACT, 2).is_none());
    assert_eq!(store.get_migration_count(AIRLINE_CONTRACT), 0);
}

#[test]
fn test_multiple_migrations() {
    let mut store = VersionedStorage::new();
    store.record_migration(0, BOOKING_CONTRACT, 1, 2, "manual".to_string(), "v1_to_v2".to_string());
    store.record_migration(0, AIRLINE_CONTRACT, 1, 2, "manual".to_string(), "other".to_string());
    store.record_migration(0, BOOKING_CONTRACT, 2, 3, "manual".to_string(), "v2_to_v3".to_string());
    store.record_migration(0, BOOKING_CONTRACT, 3, 4, "emergency".to_string(), "v3_to_v4".to_string());
    assert_eq!(store.get_migration_count(BOOKING_CONTRACT), 3);
    let record_3 = store.get_migration(BOOKING_CONTRACT, 3).unwrap();
    assert_eq!(record_3.migration_type, "emergency");
    assert_eq!(store.get_migration(BOOKING_CONTRACT, 2).unwrap().description, "v2_to_v3");
}

#[test]
fn test_migrate_storage_function() {
    let mut store = VersionedStorage::new();
    let migrator = Address::new(7);
    store.set_storage_version(BOOKING_CONTRACT, 1);
    let success = store.migrate_storage(42, BOOKING_CONTRACT, 1, 3, migrator);
    assert_eq!(success, Ok(true));
    assert_eq!(store.get_storage_version(BOOKING_CONTRACT), 3);
    let progress = store.get_migration_progress(BOOKING_CONTRACT).unwrap();
    assert!(progress.completed);
    assert_eq!(progress.from_version, 1);
    assert_eq!(progress.to_version, 3);
    assert_eq!(progress.total_steps, 2);
    assert_eq!(progress.current_step, 2);
    let record = store.get_migration(BOOKING_CONTRACT, 1).unwrap();
    assert_eq!(record.migration_type, "manual");
    assert_eq!(record.description, "completed");
    assert_eq!(record.timestamp, 42);
}

#[test]
fn test_migration_progress_tracking() {
    let mut store = VersionedStorage::new();
    store.set_storage_version(AIRLINE_CONTRACT, 1);
    store.migrate_storage(9, AIRLINE_CONTRACT, 1, 2, Address::new(7)).unwrap();
    let progress = store.get_migration_progress(AIRLINE_CONTRACT).unwrap();
    assert_eq!(progress.contract_type, AIRLINE_CONTRACT);
    assert!(progress.completed);
    assert!(progress.completed_at.is_some());
    assert!(store.get_migration_progress(TOKEN_CONTRACT).is_none());
}

#[test]
fn test_migrate_storage_invalid_direction() {
    let mut store = VersionedStorage::new();
    store.set_storage_version(BOOKING_CONTRACT, 3);
    assert_eq!(
        store.migrate_storage(0, BOOKING_CONTRACT, 3, 1, Address::new(7)),
        Err(VersionError::InvalidMigrationDirection)
    );
}

#[test]
fn test_migrate_storage_version_mismatch() {
    let mut store = VersionedStorage::new();
    store.set_storage_version(BOOKING_CONTRACT, 2);
    assert_eq!(
        store.migrate_storage(0, BOOKING_CONTRACT, 1, 3, Address::new(7)),
        Err(VersionError::VersionMismatch)
    );
    assert_eq!(store.get_storage_version(BOOKING_CONTRACT), 2);
}

#[test]
fn test_validate_storage_version() {
    let mut store = VersionedStorage::new();
    store.set_storage_version(TOKEN_CONTRACT, 3);
    assert!(store.validate_storage_version(TOKEN_CONTRACT, 2, 5));
    assert!(!store.validate_storage_version(TOKEN_CONTRACT, 4, 5));
    assert!(!store.validate_storage_version(TOKEN_CONTRACT, 1, 2));
}

#[test]
fn test_different_contract_types() {
    let mut store = VersionedStorage::new();
    store.set_storage_version(BOOKING_CONTRACT, 2);
    store.set_storage_version(AIRLINE_CONTRACT, 3);
    store.set_storage_version(TOKEN_CONTRACT, 1);
    assert_eq!(store.get_storage_version(BOOKING_CONTRACT), 2);
    assert_eq!(store.get_storage_version(AIRLINE_CONTRACT), 3);
    assert_eq!(store.get_storage_version(TOKEN_CONTRACT), 1);
}

#[test]
fn test_migration_record_timestamp() {
    let mut store = VersionedStorage::new();
    store.record_migration(1234, BOOKING_CONTRACT, 1, 2, "manual".to_string(), "test".to_string());
    let record = store.get_migration(BOOKING_CONTRACT, 1).unwrap();
    assert_eq!(record.timestamp, 1234);
}

#[test]
fn slot_ranges_by_data_type() {
    assert_eq!(get_slot_range(&"dispute".to_string()), DISPUTE_SLOTS);
    assert_eq!(get_slot_range(&"dispute".to_string()), (30000, 39999));
    assert_eq!(get_slot_range(&"config".to_string()), (0, 99));
    assert_eq!(get_slot_range(&"migration".to_string()), (100000, 109999));
    assert_eq!(get_slot_range(&"unknown".to_string()), RESERVED_SLOTS);
}
