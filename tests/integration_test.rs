use traqora_contracts::address::Address;
use traqora_contracts::airline::{AirlineContract, AirlineRegistry};
use traqora_contracts::booking::{BookingContract, BookingStorage, TokenTransfer};
use traqora_contracts::loyalty::{LoyaltyContract, LoyaltyStorageKey};
use traqora_contracts::refund::{RefundContract, RefundStorageKey};
use traqora_contracts::token::{TRQTokenContract, TokenStorage};

const ADMIN: u64 = 100;
const PASSENGER: u64 = 1;
const AIRLINE: u64 = 2;
const ESCROW: u64 = 500;
const TOKEN: u64 = 900;

fn token_store() -> TokenStorage {
    let mut tokens = TokenStorage::new();
    TRQTokenContract::initialize(&mut tokens, Address::new(ADMIN), "TRQ".to_string(), "TRQ".to_string(), 7)
        .unwrap();
    tokens
}

fn settle(tokens: &mut TokenStorage, t: TokenTransfer) {
    TRQTokenContract::transfer(tokens, t.from, t.to, t.amount).unwrap();
}

fn verified_airline() -> AirlineRegistry {
    let mut registry = AirlineRegistry::new();
    let airline = Address::new(AIRLINE);
    AirlineContract::register_airline(&mut registry, airline, "TraqoraAir".to_string(), "TQ".to_string());
    AirlineContract::verify_airline(&mut registry, Address::new(ADMIN), airline).unwrap();
    registry
}

#[test]
fn test_full_booking_and_loyalty_flow() {
    let (passenger, airline, escrow) = (Address::new(PASSENGER), Address::new(AIRLINE), Address::new(ESCROW));
    let mut tokens = token_store();
    let mut registry = verified_airline();
    let flight_id = AirlineContract::create_flight(
        &mut registry,
        airline,
        "TQ300".to_string(),
        "JFK".to_string(),
        "LHR".to_string(),
        1_900_000_000,
        1_900_100_000,
        300,
        500_0000000i128,
        "USDC".to_string(),
    )
    .unwrap();
    let price = 500_0000000i128;
    let mut bookings = BookingStorage::new();
    let booking_id = BookingContract::create_booking(
        &mut bookings,
        0,
        passenger,
        airline,
        "TQ300".to_string(),
        "JFK".to_string(),
        "LHR".to_string(),
        1_900_000_000,
        price,
        Address::new(TOKEN),
    );
    TRQTokenContract::mint(&mut tokens, Address::new(ADMIN), passenger, price).unwrap();
    let t = BookingContract::pay_for_booking(&mut bookings, escrow, booking_id).unwrap();
    settle(&mut tokens, t);
    AirlineContract::reserve_seat(&mut registry, airline, flight_id).unwrap();
    let t = BookingContract::release_payment_to_airline(&mut bookings, escrow, booking_id).unwrap();
    settle(&mut tokens, t);
    assert_eq!(TRQTokenContract::balance_of(&tokens, airline), price);
    let mut loyalty = LoyaltyStorageKey::new();
    LoyaltyContract::initialize_tiers(&mut loyalty);
    let earned = LoyaltyContract::award_points(&mut loyalty, 0, passenger, price, booking_id).unwrap();
    assert!(earned > 0);
    assert_eq!(earned, price);
}

#[test]
fn test_refund_policy_integration() {
    let (passenger, airline, escrow) = (Address::new(PASSENGER), Address::new(AIRLINE), Address::new(ESCROW));
    let mut tokens = token_store();
    let _registry = verified_airline();
    let mut refunds = RefundStorageKey::new();
    RefundContract::set_refund_policy(&mut refunds, airline, 86_400, 10_000, 5_000, 3_600);
    let now = 0u64;
    let price = 200_0000000i128;
    let mut bookings = BookingStorage::new();
    let booking_id = BookingContract::create_booking(
        &mut bookings,
        now,
        passenger,
        airline,
        "TQ400".to_string(),
        "SFO".to_string(),
        "SEA".to_string(),
        now + 200_000,
        price,
        Address::new(TOKEN),
    );
    TRQTokenContract::mint(&mut tokens, Address::new(ADMIN), passenger, price).unwrap();
    let t = BookingContract::pay_for_booking(&mut bookings, escrow, booking_id).unwrap();
    settle(&mut tokens, t);
    let calc = RefundContract::calculate_refund(&refunds, now, airline, price, now + 200_000).unwrap();
    assert_eq!(calc, price);
}
