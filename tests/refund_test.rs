use traqora_contracts::address::Address;
use traqora_contracts::refund::{RefundContract, RefundError, RefundStatus, RefundStorageKey};

#[test]
fn test_set_policy_and_calculate_refund() {
    let airline = Address::new(2);
    let mut store = RefundStorageKey::new();
    RefundContract::set_refund_policy(&mut store, airline, 86_400, 10_000, 5_000, 3_600);
    let now = 0u64;
    let original = 100_0000000i128;
    let departure_far = now + 200_000;
    let amt_full = RefundContract::calculate_refund(&store, now, airline, original, departure_far).unwrap();
    assert_eq!(amt_full, original);
    let departure_mid = now + 10_000;
    let amt_partial = RefundContract::calculate_refund(&store, now, airline, original, departure_mid).unwrap();
    assert_eq!(amt_partial, original / 2);
    let departure_soon = now + 1_000;
    let amt_none = RefundContract::calculate_refund(&store, now, airline, original, departure_soon).unwrap();
    assert_eq!(amt_none, 0);
}

#[test]
fn refund_windows_are_inclusive_and_errors_are_named() {
    let airline = Address::new(2);
    let mut store = RefundStorageKey::new();
    assert_eq!(
        RefundContract::calculate_refund(&store, 0, airline, 1000, 10),
        Err(RefundError::NoPolicy)
    );
    RefundContract::set_refund_policy(&mut store, airline, 100, 9_000, 3_333, 10);
    assert_eq!(RefundContract::calculate_refund(&store, 50, airline, 1000, 150), Ok(900));
    assert_eq!(RefundContract::calculate_refund(&store, 50, airline, 1000, 60), Ok(333));
    assert_eq!(RefundContract::calculate_refund(&store, 50, airline, 1000, 59), Ok(0));
    assert_eq!(
        RefundContract::calculate_refund(&store, 50, airline, 1000, 49),
        Err(RefundError::DeparturePassed)
    );
    assert_eq!(
        RefundContract::calculate_refund(&store, 0, airline, i128::MAX, 1000),
        Err(RefundError::MathOverflow)
    );
    // A later policy replaces the earlier one.
    RefundContract::set_refund_policy(&mut store, airline, 100, 10_000, 0, 10);
    assert_eq!(RefundContract::calculate_refund(&store, 0, airline, 1000, 100), Ok(1000));
    assert_eq!(RefundContract::get_refund_policy(&store, airline).unwrap().partial_refund_percentage, 0);
}

#[test]
fn test_request_and_process_refund() {
    let passenger = Address::new(1);
    let admin = Address::new(9);
    let mut store = RefundStorageKey::new();
    let rid = RefundContract::request_refund(
        &mut store,
        0,
        passenger,
        12345,
        50_0000000i128,
        "USDC".to_string(),
        "cancelled".to_string(),
    );
    let r = RefundContract::get_refund_request(&store, rid).unwrap();
    assert_eq!(r.status, RefundStatus::Pending);
    RefundContract::process_refund(&mut store, 7, admin, rid).unwrap();
    let r2 = RefundContract::get_refund_request(&store, rid).unwrap();
    assert_eq!(r2.status, RefundStatus::Approved);
    assert!(r2.processed_at.is_some());
    assert_eq!(r2.processed_at, Some(7));
    assert_eq!(r2.currency, "USDC");
    assert_eq!(
        RefundContract::process_refund(&mut store, 8, admin, rid).err(),
        Some(RefundError::AlreadyProcessed)
    );
    assert_eq!(
        RefundContract::process_refund(&mut store, 8, admin, 99).err(),
        Some(RefundError::RequestNotFound)
    );
}
