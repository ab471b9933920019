use soroban_sdk::{Bytes, Env};
use traqora_contracts::address::Address;
use traqora_contracts::oracle::{FlightOracle, OracleError, OracleStorage, Settlement};

fn compute_proof(env: &Env, booking_id: u64, timestamp: u64) -> [u8; 32] {
    let mut msg = Vec::new();
    msg.extend_from_slice(&booking_id.to_be_bytes());
    msg.extend_from_slice(&timestamp.to_be_bytes());
    env.crypto().keccak256(&Bytes::from_slice(env, &msg)).to_array()
}

fn setup() -> (OracleStorage, Address, Address, Address) {
    let admin = Address::new(100);
    let booking_contract = Address::new(200);
    let provider = Address::new(300);
    let mut store = OracleStorage::new();
    FlightOracle::initialize(&mut store, admin, 1_000i128, 1u32, booking_contract).unwrap();
    (store, admin, booking_contract, provider)
}

#[test]
fn test_oracle_completion_settlement() {
    let env = Env::default();
    let (mut store, admin, booking_contract, provider) = setup();
    let now = 2_000_000_000u64;
    FlightOracle::register_oracle_provider(&mut store, now, admin, provider, 1_000i128).unwrap();
    let booking_id = 1u64;
    let ts = now;
    let proof = compute_proof(&env, booking_id, ts);
    let flight_number = "TQ300".to_string();
    FlightOracle::submit_flight_status(
        &env,
        &mut store,
        provider,
        flight_number.clone(),
        booking_id,
        "completed".to_string(),
        ts,
        proof,
    )
    .unwrap();
    assert_eq!(
        FlightOracle::verify_flight_completion(&store, &flight_number, booking_id),
        Ok(Settlement::ReleasePayment { booking_contract, booking_id })
    );
    assert_eq!(
        FlightOracle::verify_airline_cancellation(&store, &flight_number, booking_id),
        Err(OracleError::InsufficientConsensus)
    );
}

#[test]
fn test_oracle_cancellation_refund() {
    let env = Env::default();
    let (mut store, admin, booking_contract, provider) = setup();
    let now = 2_000_000_000u64;
    FlightOracle::register_oracle_provider(&mut store, now, admin, provider, 1_000i128).unwrap();
    let booking_id = 1u64;
    let proof = compute_proof(&env, booking_id, now);
    let flight_number = "TQ301".to_string();
    FlightOracle::submit_flight_status(
        &env,
        &mut store,
        provider,
        flight_number.clone(),
        booking_id,
        "cancelled".to_string(),
        now,
        proof,
    )
    .unwrap();
    assert_eq!(
        FlightOracle::verify_airline_cancellation(&store, &flight_number, booking_id),
        Ok(Settlement::RefundCancellation { booking_contract, booking_id })
    );
    let report = store.get_report(&flight_number, booking_id, 0).unwrap();
    assert_eq!(report.status, "cancelled");
    assert_eq!(report.provider, provider);
    assert!(store.get_report(&flight_number, booking_id, 1).is_none());
}

#[test]
fn test_unregistered_provider_cannot_submit() {
    let env = Env::default();
    let (mut store, _admin, _booking_contract, provider) = setup();
    let ts = 2_000_000_000u64;
    let proof = compute_proof(&env, 1, ts);
    let r = FlightOracle::submit_flight_status(
        &env,
        &mut store,
        provider,
        "TQ999".to_string(),
        1,
        "completed".to_string(),
        ts,
        proof,
    );
    assert_eq!(r, Err(OracleError::ProviderNotRegistered));
}

#[test]
fn proof_must_be_the_digest_of_booking_and_time() {
    let env = Env::default();
    let (mut store, admin, _booking_contract, provider) = setup();
    FlightOracle::register_oracle_provider(&mut store, 0, admin, provider, 1_000).unwrap();
    let msg = FlightOracle::proof_message(0x0102030405060708, 9);
    assert_eq!(msg, vec![1, 2, 3, 4, 5, 6, 7, 8, 0, 0, 0, 0, 0, 0, 0, 9]);
    let wrong = compute_proof(&env, 2, 9);
    assert_eq!(
        FlightOracle::submit_flight_status(&env, &mut store, provider, "TQ1".to_string(), 1, "completed".to_string(), 9, wrong),
        Err(OracleError::InvalidProof)
    );
    assert_eq!(
        FlightOracle::verify_flight_completion(&store, &"TQ1".to_string(), 1),
        Err(OracleError::InsufficientConsensus)
    );
}

#[test]
fn oracle_setup_errors() {
    let admin = Address::new(100);
    let mut store = OracleStorage::new();
    assert_eq!(
        FlightOracle::register_oracle_provider(&mut store, 0, admin, Address::new(1), 5),
        Err(OracleError::NotInitialized)
    );
    assert_eq!(
        FlightOracle::initialize(&mut store, admin, 0, 1, Address::new(2)),
        Err(OracleError::InvalidMinStake)
    );
    assert_eq!(
        FlightOracle::initialize(&mut store, admin, 10, 0, Address::new(2)),
        Err(OracleError::InvalidThreshold)
    );
    FlightOracle::initialize(&mut store, admin, 10, 2, Address::new(2)).unwrap();
    assert_eq!(
        FlightOracle::initialize(&mut store, admin, 10, 2, Address::new(2)),
        Err(OracleError::AlreadyInitialized)
    );
    assert_eq!(
        FlightOracle::register_oracle_provider(&mut store, 0, Address::new(5), Address::new(1), 50),
        Err(OracleError::Unauthorized)
    );
    assert_eq!(
        FlightOracle::register_oracle_provider(&mut store, 0, admin, Address::new(1), 9),
        Err(OracleError::InsufficientStake)
    );
    FlightOracle::register_oracle_provider(&mut store, 0, admin, Address::new(1), 10).unwrap();
    assert_eq!(
        FlightOracle::register_oracle_provider(&mut store, 0, admin, Address::new(1), 10),
        Err(OracleError::AlreadyRegistered)
    );
}
