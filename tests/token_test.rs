use traqora_contracts::address::Address;
use traqora_contracts::token::{TRQTokenContract, TokenError, TokenStorage};

fn actors() -> (Address, Address, Address) {
    (Address::new(100), Address::new(1), Address::new(2))
}

fn initialized(admin: Address) -> TokenStorage {
    let mut store = TokenStorage::new();
    TRQTokenContract::initialize(&mut store, admin, "TRQ".to_string(), "TRQ".to_string(), 7).unwrap();
    store
}

#[test]
fn test_initialize_ok() {
    let (admin, _, _) = actors();
    let store = initialized(admin);
    assert_eq!(TRQTokenContract::decimals(&store), 7);
    assert_eq!(TRQTokenContract::name(&store), Some("TRQ".to_string()));
    assert_eq!(TRQTokenContract::symbol(&store), Some("TRQ".to_string()));
    assert_eq!(TRQTokenContract::total_supply(&store), 0);
}

#[test]
fn test_reinitialize_should_panic() {
    let (admin, _, _) = actors();
    let mut store = initialized(admin);
    let r = TRQTokenContract::initialize(&mut store, admin, "TRQ".to_string(), "TRQ".to_string(), 7);
    assert_eq!(r, Err(TokenError::AlreadyInitialized));
}

#[test]
fn test_mint_increases_balance_and_total_supply() {
    let (admin, passenger, _) = actors();
    let mut store = initialized(admin);
    let amount = 1_000i128;
    TRQTokenContract::mint(&mut store, admin, passenger, amount).unwrap();
    assert_eq!(TRQTokenContract::balance_of(&store, passenger), amount);
    assert_eq!(TRQTokenContract::total_supply(&store), amount);
}

#[test]
fn mint_errors() {
    let (admin, passenger, airline) = actors();
    let mut store = TokenStorage::new();
    assert_eq!(TRQTokenContract::mint(&mut store, admin, passenger, 5), Err(TokenError::Unauthorized));
    assert_eq!(TRQTokenContract::decimals(&store), 7);
    assert_eq!(TRQTokenContract::name(&store), None);
    let mut store = initialized(admin);
    assert_eq!(TRQTokenContract::mint(&mut store, airline, passenger, 5), Err(TokenError::Unauthorized));
    assert_eq!(TRQTokenContract::mint(&mut store, admin, passenger, 0), Err(TokenError::InvalidAmount));
    TRQTokenContract::mint(&mut store, admin, passenger, i128::MAX).unwrap();
    assert_eq!(TRQTokenContract::mint(&mut store, admin, airline, 1), Err(TokenError::MathOverflow));
}

#[test]
fn test_transfer_valid() {
    let (admin, passenger, airline) = actors();
    let mut store = initialized(admin);
    TRQTokenContract::mint(&mut store, admin, passenger, 1000).unwrap();
    TRQTokenContract::transfer(&mut store, passenger, airline, 400).unwrap();
    assert_eq!(TRQTokenContract::balance_of(&store, passenger), 600);
    assert_eq!(TRQTokenContract::balance_of(&store, airline), 400);
    assert_eq!(TRQTokenContract::total_supply(&store), 1000);
}

#[test]
fn transfer_to_oneself_changes_nothing() {
    let (admin, passenger, _) = actors();
    let mut store = initialized(admin);
    TRQTokenContract::mint(&mut store, admin, passenger, 1000).unwrap();
    TRQTokenContract::transfer(&mut store, passenger, passenger, 400).unwrap();
    assert_eq!(TRQTokenContract::balance_of(&store, passenger), 1000);
}

#[test]
fn test_transfer_invalid_amount_should_panic() {
    let (admin, passenger, airline) = actors();
    let mut store = initialized(admin);
    TRQTokenContract::mint(&mut store, admin, passenger, 1000).unwrap();
    assert_eq!(
        TRQTokenContract::transfer(&mut store, passenger, airline, 0),
        Err(TokenError::InvalidAmount)
    );
}

#[test]
fn test_transfer_insufficient_balance_should_panic() {
    let (admin, passenger, airline) = actors();
    let mut store = initialized(admin);
    TRQTokenContract::mint(&mut store, admin, passenger, 1000).unwrap();
    assert_eq!(
        TRQTokenContract::transfer(&mut store, airline, passenger, 1),
        Err(TokenError::InsufficientBalance)
    );
}

#[test]
fn test_approve_and_transfer_from() {
    let (admin, passenger, airline) = actors();
    let mut store = initialized(admin);
    TRQTokenContract::mint(&mut store, admin, passenger, 500).unwrap();
    TRQTokenContract::approve(&mut store, passenger, airline, 300, 10);
    assert_eq!(TRQTokenContract::allowance(&store, 0, passenger, airline), 300);
    TRQTokenContract::transfer_from(&mut store, 0, airline, passenger, airline, 200).unwrap();
    assert_eq!(TRQTokenContract::balance_of(&store, passenger), 300);
    assert_eq!(TRQTokenContract::balance_of(&store, airline), 200);
    assert_eq!(TRQTokenContract::allowance(&store, 0, passenger, airline), 100);
}

#[test]
fn test_transfer_from_insufficient_allowance_should_panic() {
    let (admin, passenger, airline) = actors();
    let mut store = initialized(admin);
    TRQTokenContract::mint(&mut store, admin, passenger, 500).unwrap();
    TRQTokenContract::approve(&mut store, passenger, airline, 0, 1);
    assert_eq!(
        TRQTokenContract::transfer_from(&mut store, 0, airline, passenger, airline, 1),
        Err(TokenError::InsufficientAllowance)
    );
}

#[test]
fn allowance_expiry_and_missing_allowance() {
    let (admin, passenger, airline) = actors();
    let mut store = initialized(admin);
    TRQTokenContract::mint(&mut store, admin, passenger, 500).unwrap();
    assert_eq!(
        TRQTokenContract::transfer_from(&mut store, 0, airline, passenger, airline, 1),
        Err(TokenError::NoAllowance)
    );
    TRQTokenContract::approve(&mut store, passenger, airline, 300, 10);
    assert_eq!(TRQTokenContract::allowance(&store, 10, passenger, airline), 300);
    assert_eq!(TRQTokenContract::allowance(&store, 11, passenger, airline), 0);
    assert_eq!(
        TRQTokenContract::transfer_from(&mut store, 11, airline, passenger, airline, 1),
        Err(TokenError::AllowanceExpired)
    );
    // A failed move leaves the allowance as it was.
    TRQTokenContract::approve(&mut store, passenger, airline, 900, 10);
    assert_eq!(
        TRQTokenContract::transfer_from(&mut store, 0, airline, passenger, airline, 800),
        Err(TokenError::InsufficientBalance)
    );
    assert_eq!(TRQTokenContract::allowance(&store, 0, passenger, airline), 900);
}
