use traqora_contracts::address::Address;
use traqora_contracts::airline::{
    AirlineContract, AirlineError, AirlineRegistry, BatchFailureReason, FlightInput, FlightStatus,
    FlightStatusUpdate, PriceUpdateInput, PricingFactors, PricingStorage,
};

fn register_and_verify_airline(registry: &mut AirlineRegistry, airline: Address) {
    AirlineContract::register_airline(registry, airline, "TraqoraAir".to_string(), "TQ".to_string());
    AirlineContract::verify_airline(registry, Address::new(100), airline).unwrap();
}

fn create(registry: &mut AirlineRegistry, airline: Address, number: &str, dep: u64, arr: u64, seats: u32, price: i128) -> u64 {
    AirlineContract::create_flight(
        registry,
        airline,
        number.to_string(),
        "JFK".to_string(),
        "LAX".to_string(),
        dep,
        arr,
        seats,
        price,
        "USDC".to_string(),
    )
    .unwrap()
}

fn input(number: &str, dep: u64, arr: u64, seats: u32, price: i128) -> FlightInput {
    FlightInput {
        flight_number: number.to_string(),
        from_airport: "JFK".to_string(),
        to_airport: "LHR".to_string(),
        departure_time: dep,
        arrival_time: arr,
        total_seats: seats,
        price,
        currency: "USDC".to_string(),
    }
}

#[test]
fn test_register_and_verify_airline() {
    let airline = Address::new(2);
    let mut registry = AirlineRegistry::new();
    assert!(AirlineContract::register_airline(&mut registry, airline, "TraqoraAir".to_string(), "TQ".to_string()));
    let profile = AirlineContract::get_airline(&registry, airline).unwrap();
    assert!(!profile.is_verified);
    AirlineContract::verify_airline(&mut registry, Address::new(100), airline).unwrap();
    let profile2 = AirlineContract::get_airline(&registry, airline).unwrap();
    assert!(profile2.is_verified);
    assert_eq!(
        AirlineContract::verify_airline(&mut registry, Address::new(100), Address::new(3)),
        Err(AirlineError::AirlineNotFound)
    );
}

#[test]
fn test_create_flight_requires_verified_airline_and_reserve_seat() {
    let airline = Address::new(2);
    let mut registry = AirlineRegistry::new();
    AirlineContract::register_airline(&mut registry, airline, "TraqoraAir".to_string(), "TQ".to_string());
    assert_eq!(
        AirlineContract::create_flight(
            &mut registry, airline, "TQ101".to_string(), "JFK".to_string(), "LAX".to_string(),
            1_700_000_000, 1_700_100_000, 200, 250_0000000i128, "USDC".to_string()
        ),
        Err(AirlineError::AirlineNotVerified)
    );
    AirlineContract::verify_airline(&mut registry, Address::new(100), airline).unwrap();
    let flight_id = create(&mut registry, airline, "TQ101", 1_700_000_000, 1_700_100_000, 200, 250_0000000i128);
    assert_eq!(flight_id, 1);
    let flight = AirlineContract::get_flight(&registry, flight_id).unwrap();
    assert_eq!(flight.available_seats, 200);
    assert_eq!(flight.status, FlightStatus::Active);
    AirlineContract::reserve_seat(&mut registry, airline, flight_id).unwrap();
    let flight2 = AirlineContract::get_flight(&registry, flight_id).unwrap();
    assert_eq!(flight2.available_seats, 199);
    assert_eq!(AirlineContract::get_airline(&registry, airline).unwrap().total_flights, 1);
}

#[test]
fn create_flight_errors_and_seat_limits() {
    let airline = Address::new(2);
    let mut registry = AirlineRegistry::new();
    register_and_verify_airline(&mut registry, airline);
    let c = |r: &mut AirlineRegistry, dep, arr, seats, price| {
        AirlineContract::create_flight(
            r, airline, "X".to_string(), "A".to_string(), "B".to_string(), dep, arr, seats, price, "USDC".to_string(),
        )
    };
    assert_eq!(c(&mut registry, 10, 10, 1, 1), Err(AirlineError::InvalidFlightTimes));
    assert_eq!(c(&mut registry, 10, 11, 0, 1), Err(AirlineError::InvalidSeatCount));
    assert_eq!(c(&mut registry, 10, 11, 1, 0), Err(AirlineError::InvalidPrice));
    let id = c(&mut registry, 10, 11, 1, 5).unwrap();
    assert_eq!(AirlineContract::reserve_seat(&mut registry, Address::new(9), id), Err(AirlineError::Unauthorized));
    AirlineContract::reserve_seat(&mut registry, airline, id).unwrap();
    assert_eq!(AirlineContract::reserve_seat(&mut registry, airline, id), Err(AirlineError::NoSeatsAvailable));
    assert_eq!(AirlineContract::reserve_seat(&mut registry, airline, 77), Err(AirlineError::FlightNotFound));
}

#[test]
fn test_cancel_flight_and_unauthorized_changes() {
    let airline = Address::new(2);
    let mut registry = AirlineRegistry::new();
    register_and_verify_airline(&mut registry, airline);
    let flight_id = create(&mut registry, airline, "TQ202", 1_800_000_000, 1_800_050_000, 100, 150_0000000i128);
    assert_eq!(
        AirlineContract::cancel_flight(&mut registry, Address::new(9), flight_id),
        Err(AirlineError::Unauthorized)
    );
    AirlineContract::cancel_flight(&mut registry, airline, flight_id).unwrap();
    let flight = AirlineContract::get_flight(&registry, flight_id).unwrap();
    assert_eq!(flight.status, FlightStatus::Cancelled);
}

#[test]
fn test_batch_create_flights_partial_failure() {
    let airline = Address::new(2);
    let mut registry = AirlineRegistry::new();
    register_and_verify_airline(&mut registry, airline);
    let batch = vec![
        input("TQ400", 1_900_000_000, 1_900_100_000, 180, 400_0000000i128),
        input("TQ401", 1_900_100_000, 1_900_000_000, 180, 410_0000000i128),
        input("TQ402", 1_900_200_000, 1_900_300_000, 220, 520_0000000i128),
    ];
    let result = AirlineContract::batch_create_flights(&mut registry, airline, batch).unwrap();
    assert_eq!(result.created_flight_ids.len(), 2);
    assert_eq!(result.failures.len(), 1);
    assert_eq!(result.failures[0].reason, BatchFailureReason::BadData);
    assert_eq!(result.failures[0].index, 1);
    let first_id = result.created_flight_ids[0];
    let second_id = result.created_flight_ids[1];
    assert_eq!((first_id, second_id), (1, 2));
    assert!(AirlineContract::get_flight(&registry, first_id).is_some());
    assert_eq!(AirlineContract::get_flight(&registry, second_id).unwrap().flight_number, "TQ402");
    let profile = AirlineContract::get_airline(&registry, airline).unwrap();
    assert_eq!(profile.total_flights, 2);
}

#[test]
fn test_batch_update_flight_status_partial_failure() {
    let airline = Address::new(2);
    let other_airline = Address::new(3);
    let mut registry = AirlineRegistry::new();
    register_and_verify_airline(&mut registry, airline);
    register_and_verify_airline(&mut registry, other_airline);
    let my_flight = create(&mut registry, airline, "TQ500", 2_000_000_000, 2_000_100_000, 150, 300_0000000i128);
    let other_flight = create(&mut registry, other_airline, "OA100", 2_000_000_000, 2_000_020_000, 90, 150_0000000i128);
    let updates = vec![
        FlightStatusUpdate { flight_id: my_flight, status: "completed".to_string() },
        FlightStatusUpdate { flight_id: 999_999, status: "cancelled".to_string() },
        FlightStatusUpdate { flight_id: other_flight, status: "cancelled".to_string() },
        FlightStatusUpdate { flight_id: my_flight, status: "delayed".to_string() },
    ];
    let result = AirlineContract::batch_update_flight_status(&mut registry, airline, updates).unwrap();
    assert_eq!(result.updated_flight_ids.len(), 1);
    assert_eq!(result.failures.len(), 3);
    assert_eq!(result.failures[0].reason, BatchFailureReason::Missing);
    assert_eq!(result.failures[1].reason, BatchFailureReason::Unauthorized);
    assert_eq!(result.failures[2].reason, BatchFailureReason::BadStatus);
    assert_eq!(result.failures[2].index, 3);
    let updated = AirlineContract::get_flight(&registry, my_flight).unwrap();
    assert_eq!(updated.status, FlightStatus::Completed);
    assert_eq!(AirlineContract::get_flight(&registry, other_flight).unwrap().status, FlightStatus::Active);
}

#[test]
fn test_batch_create_flights_enforces_max_batch_size() {
    let airline = Address::new(2);
    let mut registry = AirlineRegistry::new();
    register_and_verify_airline(&mut registry, airline);
    let batch: Vec<FlightInput> = (0..51)
        .map(|_| input("TQ999", 2_100_000_000, 2_100_100_000, 100, 200_0000000i128))
        .collect();
    assert_eq!(
        AirlineContract::batch_create_flights(&mut registry, airline, batch).err(),
        Some(AirlineError::BatchTooLarge)
    );
    assert_eq!(
        AirlineContract::batch_create_flights(&mut registry, airline, Vec::new()).err(),
        Some(AirlineError::EmptyBatch)
    );
}

fn priced() -> (AirlineRegistry, PricingStorage, Address, u64) {
    let airline = Address::new(2);
    let oracle = Address::new(50);
    let mut registry = AirlineRegistry::new();
    register_and_verify_airline(&mut registry, airline);
    let id = create(&mut registry, airline, "TQ1", 1_000_000, 1_100_000, 100, 10_000);
    let mut pricing = PricingStorage::new();
    AirlineContract::initialize_pricing(&mut pricing, Address::new(1), oracle, 60, 2000, 5000).unwrap();
    (registry, pricing, oracle, id)
}

fn factors(demand: i128) -> PriceUpdateInput {
    PriceUpdateInput {
        base_price: 10_000,
        factors: PricingFactors { demand_bps: demand, competitor_bps: 0, time_to_departure_bps: 0 },
    }
}

#[test]
fn price_updates_are_clamped_and_cooled_down() {
    let (mut registry, mut pricing, oracle, id) = priced();
    // A 50% rise is held to the 20% limit.
    assert_eq!(AirlineContract::update_flight_price(&mut registry, &mut pricing, 100, oracle, id, factors(5000)), Ok(12_000));
    assert_eq!(
        AirlineContract::update_flight_price(&mut registry, &mut pricing, 159, oracle, id, factors(0)),
        Err(AirlineError::CooldownActive)
    );
    // Within the limit the suggestion stands: 10000 against an old 12000 is -16.7%.
    assert_eq!(AirlineContract::update_flight_price(&mut registry, &mut pricing, 160, oracle, id, factors(0)), Ok(10_000));
    let history = AirlineContract::get_price_history(&pricing, id);
    assert_eq!(history.len(), 2);
    assert_eq!((history[0].old_price, history[0].new_price), (10_000, 12_000));
    assert_eq!(history[1].timestamp, 160);
    assert_eq!(
        AirlineContract::update_flight_price(&mut registry, &mut pricing, 500, Address::new(9), id, factors(0)),
        Err(AirlineError::Unauthorized)
    );
    assert_eq!(
        AirlineContract::update_flight_price(&mut registry, &mut pricing, 500, oracle, id, factors(-10_000)),
        Err(AirlineError::InvalidFactors)
    );
}

#[test]
fn pricing_setup_errors() {
    let mut pricing = PricingStorage::new();
    let admin = Address::new(1);
    assert_eq!(
        AirlineContract::set_price_oracle(&mut pricing, admin, Address::new(5)),
        Err(AirlineError::PricingNotInitialized)
    );
    assert_eq!(
        AirlineContract::initialize_pricing(&mut pricing, admin, Address::new(5), 0, 2001, 0),
        Err(AirlineError::MaxChangeTooLarge)
    );
    assert_eq!(
        AirlineContract::initialize_pricing(&mut pricing, admin, Address::new(5), 0, 0, 0),
        Err(AirlineError::InvalidMaxChange)
    );
    assert_eq!(
        AirlineContract::initialize_pricing(&mut pricing, admin, Address::new(5), 0, 100, -1),
        Err(AirlineError::InvalidDemandMultiplier)
    );
    AirlineContract::initialize_pricing(&mut pricing, admin, Address::new(5), 0, 100, 0).unwrap();
    assert_eq!(
        AirlineContract::set_price_oracle(&mut pricing, Address::new(2), Address::new(6)),
        Err(AirlineError::Unauthorized)
    );
    AirlineContract::set_price_oracle(&mut pricing, admin, Address::new(6)).unwrap();
    assert_eq!(pricing.get_config().unwrap().oracle, Address::new(6));
}

#[test]
fn current_price_follows_demand() {
    let (mut registry, pricing, _oracle, id) = priced();
    // Far from departure and empty: no demand, the listed price.
    assert_eq!(AirlineContract::get_current_price(&registry, &pricing, 0, id), Ok(10_000));
    // Half full, a day before departure: utilization 5000, time 5000, signal 5000,
    // multiplier 10000 + 5000 * 5000 / 10000 = 12500.
    for _ in 0..50 {
        AirlineContract::reserve_seat(&mut registry, Address::new(2), id).unwrap();
    }
    assert_eq!(AirlineContract::get_current_price(&registry, &pricing, 1_000_000 - 86_400, id), Ok(12_500));
    // At departure: time 10000, signal 7500, multiplier 13750.
    assert_eq!(AirlineContract::get_current_price(&registry, &pricing, 1_000_000, id), Ok(13_750));
    assert_eq!(
        AirlineContract::get_current_price(&registry, &PricingStorage::new(), 0, id),
        Err(AirlineError::PricingNotInitialized)
    );
}
