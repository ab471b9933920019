use vstd::prelude::*;

use crate::address::Address;
use crate::dispute::trunc_div;
use crate::seqs::{last_of, lemma_filter_prefix_step};

verus! {

/// The most items one batch call takes.
pub const MAX_BATCH_SIZE: usize = 50;

#[derive(Clone, Copy, Debug, PartialEq, Eq, Structural)]
pub enum FlightStatus {
    Active,
    Cancelled,
    Completed,
}

#[derive(Clone, Copy, Debug, PartialEq, Eq, Structural)]
pub enum AirlineError {
    AlreadyInitialized,
    PricingNotInitialized,
    InvalidMaxChange,
    MaxChangeTooLarge,
    InvalidDemandMultiplier,
    Unauthorized,
    AirlineNotFound,
    AirlineNotVerified,
    InvalidFlightTimes,
    InvalidSeatCount,
    InvalidPrice,
    FlightNotFound,
    NoSeatsAvailable,
    EmptyBatch,
    BatchTooLarge,
    FlightNotActive,
    InvalidBasePrice,
    CooldownActive,
    InvalidFactors,
    InvalidExistingPrice,
    MathOverflow,
}

/// Why one item of a batch was skipped.
#[derive(Clone, Copy, Debug, PartialEq, Eq, Structural)]
pub enum BatchFailureReason {
    BadData,
    Missing,
    Unauthorized,
    BadStatus,
}

#[derive(Debug)]
pub struct AirlineProfile {
    pub address: Address,
    pub name: String,
    pub iata_code: String,
    pub is_verified: bool,
    pub total_flights: u64,
    pub total_bookings: u64,
    /// Hundredths, 0 to 500.
    pub rating: u32,
}

#[derive(Debug)]
pub struct Flight {
    pub flight_id: u64,
    pub airline: Address,
    pub flight_number: String,
    pub from_airport: String,
    pub to_airport: String,
    pub departure_time: u64,
    pub arrival_time: u64,
    pub total_seats: u32,
    pub available_seats: u32,
    pub price: i128,
    pub currency: String,
    pub status: FlightStatus,
}

#[derive(Debug)]
pub struct FlightInput {
    pub flight_number: String,
    pub from_airport: String,
    pub to_airport: String,
    pub departure_time: u64,
    pub arrival_time: u64,
    pub total_seats: u32,
    pub price: i128,
    pub currency: String,
}

#[derive(Debug)]
pub struct FlightStatusUpdate {
    pub flight_id: u64,
    /// One of "active", "cancelled", "completed".
    pub status: String,
}

/// The oracle's pricing factors, in basis points (10000 is 100%).
#[derive(Clone, Copy, Debug, PartialEq, Eq, Structural)]
pub struct PricingFactors {
    pub demand_bps: i128,
    pub competitor_bps: i128,
    pub time_to_departure_bps: i128,
}

/// A price the oracle suggests: a base price and the factors applied to it.
#[derive(Clone, Copy, Debug, PartialEq, Eq, Structural)]
pub struct PriceUpdateInput {
    pub base_price: i128,
    pub factors: PricingFactors,
}

#[derive(Clone, Copy, Debug, PartialEq, Eq, Structural)]
pub struct BatchFailure {
    pub index: u32,
    pub item_id: u64,
    pub reason: BatchFailureReason,
}

/// The guardrails of oracle pricing.
#[derive(Clone, Copy, Debug, PartialEq, Eq, Structural)]
pub struct PricingConfig {
    pub admin: Address,
    pub oracle: Address,
    /// The largest change of one update, in basis points of the old price.
    pub max_change_bps: i128,
    /// Seconds between two updates of one flight.
    pub cooldown_secs: u64,
    /// The most that demand raises the current price, in basis points.
    pub max_demand_multiplier_bps: i128,
}

#[derive(Debug)]
pub struct BatchCreateFlightsResult {
    pub created_flight_ids: Vec<u64>,
    pub failures: Vec<BatchFailure>,
}

#[derive(Debug)]
pub struct BatchUpdateFlightStatusResult {
    pub updated_flight_ids: Vec<u64>,
    pub failures: Vec<BatchFailure>,
}

#[derive(Clone, Copy, Debug, PartialEq, Eq, Structural)]
pub struct PriceHistoryEntry {
    pub timestamp: u64,
    pub old_price: i128,
    pub new_price: i128,
    pub input: PriceUpdateInput,
}

/// The registry's records; a later record under the same key wins.
pub struct RegistryLedger {
    pub airlines: Seq<AirlineProfile>,
    pub flights: Seq<Flight>,
    /// The id the next flight gets.
    pub next_flight_id: u64,
}

pub open spec fn of_airline(address: Address) -> spec_fn(AirlineProfile) -> bool {
    |p: AirlineProfile| p.address == address
}

pub open spec fn of_flight(flight_id: u64) -> spec_fn(Flight) -> bool {
    |f: Flight| f.flight_id == flight_id
}

impl RegistryLedger {
    pub open spec fn airline(self, address: Address) -> Option<AirlineProfile> {
        last_of(self.airlines, of_airline(address))
    }

    pub open spec fn flight(self, flight_id: u64) -> Option<Flight> {
        last_of(self.flights, of_flight(flight_id))
    }

    pub open spec fn with_flight(self, f: Flight) -> RegistryLedger {
        RegistryLedger { flights: self.flights.push(f), ..self }
    }

    pub open spec fn with_airline(self, p: AirlineProfile) -> RegistryLedger {
        RegistryLedger { airlines: self.airlines.push(p), ..self }
    }
}

/// The airline and flight registry.
pub struct AirlineRegistry {
    airlines: Vec<AirlineProfile>,
    flights: Vec<Flight>,
    next_flight_id: u64,
}

impl View for AirlineRegistry {
    type V = RegistryLedger;

    closed spec fn view(&self) -> RegistryLedger {
        RegistryLedger {
            airlines: self.airlines@,
            flights: self.flights@,
            next_flight_id: self.next_flight_id,
        }
    }
}

pub fn copy_profile(p: &AirlineProfile) -> (c: AirlineProfile)
    ensures
        c == *p,
{
    AirlineProfile {
        address: p.address,
        name: p.name.clone(),
        iata_code: p.iata_code.clone(),
        is_verified: p.is_verified,
        total_flights: p.total_flights,
        total_bookings: p.total_bookings,
        rating: p.rating,
    }
}

pub fn copy_flight(f: &Flight) -> (c: Flight)
    ensures
        c == *f,
{
    Flight {
        flight_id: f.flight_id,
        airline: f.airline,
        flight_number: f.flight_number.clone(),
        from_airport: f.from_airport.clone(),
        to_airport: f.to_airport.clone(),
        departure_time: f.departure_time,
        arrival_time: f.arrival_time,
        total_seats: f.total_seats,
        available_seats: f.available_seats,
        price: f.price,
        currency: f.currency.clone(),
        status: f.status,
    }
}

impl AirlineRegistry {
    pub fn new() -> (r: AirlineRegistry)
        ensures
            r@.airlines.len() == 0,
            r@.flights.len() == 0,
            r@.next_flight_id == 1,
    {
        AirlineRegistry { airlines: Vec::new(), flights: Vec::new(), next_flight_id: 1 }
    }

    pub fn get_airline(&self, address: Address) -> (r: Option<AirlineProfile>)
        ensures
            r == self@.airline(address),
    {
        let ghost p = of_airline(address);
        let mut found: Option<usize> = None;
        let mut i: usize = 0;
        while i < self.airlines.len()
            invariant
                i <= self.airlines@.len(),
                p == of_airline(address),
                found is None ==> last_of(self.airlines@.subrange(0, i as int), p) is None,
                found is Some ==> found.unwrap() < i && last_of(
                    self.airlines@.subrange(0, i as int),
                    p,
                ) == Some(self.airlines@[found.unwrap() as int]),
            decreases self.airlines@.len() - i,
        {
            proof {
                lemma_filter_prefix_step(self.airlines@, p, i as int);
            }
            if self.airlines[i].address == address {
                found = Some(i);
            }
            i = i + 1;
        }
        proof {
            assert(self.airlines@.subrange(0, i as int) =~= self.airlines@);
        }
        match found {
            None => None,
            Some(k) => Some(copy_profile(&self.airlines[k])),
        }
    }

    pub fn set_airline(&mut self, profile: AirlineProfile)
        ensures
            final(self)@ == old(self)@.with_airline(profile),
    {
        self.airlines.push(profile);
    }

    pub fn get_flight(&self, flight_id: u64) -> (r: Option<Flight>)
        ensures
            r == self@.flight(flight_id),
    {
        let ghost p = of_flight(flight_id);
        let mut found: Option<usize> = None;
        let mut i: usize = 0;
        while i < self.flights.len()
            invariant
                i <= self.flights@.len(),
                p == of_flight(flight_id),
                found is None ==> last_of(self.flights@.subrange(0, i as int), p) is None,
                found is Some ==> found.unwrap() < i && last_of(
                    self.flights@.subrange(0, i as int),
                    p,
                ) == Some(self.flights@[found.unwrap() as int]),
            decreases self.flights@.len() - i,
        {
            proof {
                lemma_filter_prefix_step(self.flights@, p, i as int);
            }
            if self.flights[i].flight_id == flight_id {
                found = Some(i);
            }
            i = i + 1;
        }
        proof {
            assert(self.flights@.subrange(0, i as int) =~= self.flights@);
        }
        match found {
            None => None,
            Some(k) => Some(copy_flight(&self.flights[k])),
        }
    }

    pub fn set_flight(&mut self, flight: Flight)
        ensures
            final(self)@ == old(self)@.with_flight(flight),
    {
        self.flights.push(flight);
    }

    /// Hands out the next flight id.
    pub fn next_flight_id(&mut self) -> (r: Option<u64>)
        ensures
            old(self)@.next_flight_id == u64::MAX ==> r is None && final(self)@ == old(self)@,
            old(self)@.next_flight_id < u64::MAX ==> r == Some(old(self)@.next_flight_id)
                && final(self)@ == (RegistryLedger {
                next_flight_id: (old(self)@.next_flight_id + 1) as u64,
                ..old(self)@
            }),
    {
        if self.next_flight_id == u64::MAX {
            return None;
        }
        let id = self.next_flight_id;
        self.next_flight_id = id + 1;
        Some(id)
    }
}

/// The pricing records.
pub struct PricingLedger {
    pub config: Option<PricingConfig>,
    /// Each update of a flight's price, as (flight id, time).
    pub updates: Seq<(u64, u64)>,
    pub history: Seq<(u64, PriceHistoryEntry)>,
}

pub open spec fn of_update(flight_id: u64) -> spec_fn((u64, u64)) -> bool {
    |u: (u64, u64)| u.0 == flight_id
}

pub open spec fn of_history(flight_id: u64) -> spec_fn((u64, PriceHistoryEntry)) -> bool {
    |h: (u64, PriceHistoryEntry)| h.0 == flight_id
}

impl PricingLedger {
    /// When the flight's price was last updated, if ever.
    pub open spec fn last_update(self, flight_id: u64) -> Option<u64> {
        match last_of(self.updates, of_update(flight_id)) {
            Some(u) => Some(u.1),
            None => None,
        }
    }

    /// The flight's price changes, oldest first.
    pub open spec fn history_of(self, flight_id: u64) -> Seq<PriceHistoryEntry> {
        self.history.filter(of_history(flight_id)).map_values(
            |h: (u64, PriceHistoryEntry)| h.1,
        )
    }
}

/// The pricing store.
pub struct PricingStorage {
    config: Option<PricingConfig>,
    updates: Vec<(u64, u64)>,
    history: Vec<(u64, PriceHistoryEntry)>,
}

impl View for PricingStorage {
    type V = PricingLedger;

    closed spec fn view(&self) -> PricingLedger {
        PricingLedger { config: self.config, updates: self.updates@, history: self.history@ }
    }
}

impl PricingStorage {
    pub fn new() -> (r: PricingStorage)
        ensures
            r@.config is None,
            r@.updates.len() == 0,
            r@.history.len() == 0,
    {
        PricingStorage { config: None, updates: Vec::new(), history: Vec::new() }
    }

    pub fn get_config(&self) -> (r: Option<PricingConfig>)
        ensures
            r == self@.config,
    {
        self.config
    }

    pub fn get_last_update(&self, flight_id: u64) -> (r: Option<u64>)
        ensures
            r == self@.last_update(flight_id),
    {
        let ghost p = of_update(flight_id);
        let mut found: Option<(u64, u64)> = None;
        let mut i: usize = 0;
        while i < self.updates.len()
            invariant
                i <= self.updates@.len(),
                p == of_update(flight_id),
                found == last_of(self.updates@.subrange(0, i as int), p),
            decreases self.updates@.len() - i,
        {
            proof {
                lemma_filter_prefix_step(self.updates@, p, i as int);
            }
            let u = self.updates[i];
            if u.0 == flight_id {
                found = Some(u);
            }
            i = i + 1;
        }
        proof {
            assert(self.updates@.subrange(0, i as int) =~= self.updates@);
        }
        match found {
            Some(u) => Some(u.1),
            None => None,
        }
    }

    /// The flight's price changes, oldest first.
    pub fn get_price_history(&self, flight_id: u64) -> (r: Vec<PriceHistoryEntry>)
        ensures
            r@ == self@.history_of(flight_id),
    {
        let ghost p = of_history(flight_id);
        let mut out: Vec<PriceHistoryEntry> = Vec::new();
        let mut i: usize = 0;
        while i < self.history.len()
            invariant
                i <= self.history@.len(),
                p == of_history(flight_id),
                out@ == self.history@.subrange(0, i as int).filter(p).map_values(
                    |h: (u64, PriceHistoryEntry)| h.1,
                ),
            decreases self.history@.len() - i,
        {
            proof {
                lemma_filter_prefix_step(self.history@, p, i as int);
            }
            let h = self.history[i];
            if h.0 == flight_id {
                out.push(h.1);
            }
            proof {
                assert(out@ =~= self.history@.subrange(0, i + 1).filter(p).map_values(
                    |h: (u64, PriceHistoryEntry)| h.1,
                ));
            }
            i = i + 1;
        }
        proof {
            assert(self.history@.subrange(0, i as int) =~= self.history@);
        }
        out
    }
}

pub open spec fn fits(x: int) -> bool {
    i128::MIN <= x <= i128::MAX
}

/// Whether a flight listing is well formed: it lands after it departs, has
/// seats, and costs something.
pub open spec fn valid_input(i: FlightInput) -> bool {
    i.arrival_time > i.departure_time && i.total_seats > 0 && i.price > 0
}

/// The active flight that a listing becomes under `flight_id`.
pub open spec fn listed(flight_id: u64, airline: Address, i: FlightInput) -> Flight {
    Flight {
        flight_id,
        airline,
        flight_number: i.flight_number,
        from_airport: i.from_airport,
        to_airport: i.to_airport,
        departure_time: i.departure_time,
        arrival_time: i.arrival_time,
        total_seats: i.total_seats,
        available_seats: i.total_seats,
        price: i.price,
        currency: i.currency,
        status: FlightStatus::Active,
    }
}

/// What a batch of listings creates, taking ids from `next` on: the ids,
/// the skipped items, and the flights.
pub open spec fn batch_created(airline: Address, inputs: Seq<FlightInput>, next: u64) -> (
    Seq<u64>,
    Seq<BatchFailure>,
    Seq<Flight>,
)
    decreases inputs.len(),
{
    if inputs.len() == 0 {
        (Seq::empty(), Seq::empty(), Seq::empty())
    } else {
        let (ids, bad, fl) = batch_created(airline, inputs.drop_last(), next);
        let x = inputs.last();
        if valid_input(x) {
            let id = (next + ids.len()) as u64;
            (ids.push(id), bad, fl.push(listed(id, airline, x)))
        } else {
            (
                ids,
                bad.push(
                    BatchFailure {
                        index: (inputs.len() - 1) as u32,
                        item_id: 0,
                        reason: BatchFailureReason::BadData,
                    },
                ),
                fl,
            )
        }
    }
}

proof fn lemma_batch_created_len(airline: Address, inputs: Seq<FlightInput>, next: u64)
    ensures
        batch_created(airline, inputs, next).0.len() <= inputs.len(),
        batch_created(airline, inputs, next).2.len() == batch_created(airline, inputs, next).0.len(),
    decreases inputs.len(),
{
    if inputs.len() > 0 {
        lemma_batch_created_len(airline, inputs.drop_last(), next);
    }
}

/// The status a status name stands for.
pub open spec fn status_named(s: Seq<char>) -> Option<FlightStatus> {
    if s == "active"@ {
        Some(FlightStatus::Active)
    } else if s == "cancelled"@ {
        Some(FlightStatus::Cancelled)
    } else if s == "completed"@ {
        Some(FlightStatus::Completed)
    } else {
        None
    }
}

/// The registry after a batch of status updates, with the updated ids and
/// the skipped items; each update sees the ones before it.
pub open spec fn batch_status(s: RegistryLedger, airline: Address, updates: Seq<FlightStatusUpdate>) -> (
    RegistryLedger,
    Seq<u64>,
    Seq<BatchFailure>,
)
    decreases updates.len(),
{
    if updates.len() == 0 {
        (s, Seq::empty(), Seq::empty())
    } else {
        let (s1, ok, bad) = batch_status(s, airline, updates.drop_last());
        let u = updates.last();
        let index = (updates.len() - 1) as u32;
        match s1.flight(u.flight_id) {
            None => (
                s1,
                ok,
                bad.push(
                    BatchFailure {
                        index,
                        item_id: u.flight_id,
                        reason: BatchFailureReason::Missing,
                    },
                ),
            ),
            Some(f) => if f.airline != airline {
                (
                    s1,
                    ok,
                    bad.push(
                        BatchFailure {
                            index,
                            item_id: u.flight_id,
                            reason: BatchFailureReason::Unauthorized,
                        },
                    ),
                )
            } else {
                match status_named(u.status@) {
                    None => (
                        s1,
                        ok,
                        bad.push(
                            BatchFailure {
                                index,
                                item_id: u.flight_id,
                                reason: BatchFailureReason::BadStatus,
                            },
                        ),
                    ),
                    Some(st) => (
                        s1.with_flight(Flight { status: st, ..f }),
                        ok.push(u.flight_id),
                        bad,
                    ),
                }
            },
        }
    }
}

/// The price the oracle's factors make of the base price:
/// `base * (10000 + demand + competitor + time) / 10000`, at least 1.
pub open spec fn suggested_price(input: PriceUpdateInput) -> int {
    let fs = 10000 + input.factors.demand_bps + input.factors.competitor_bps
        + input.factors.time_to_departure_bps;
    let q = (input.base_price * fs) / 10000;
    if q <= 0 {
        1
    } else {
        q
    }
}

/// The suggested price held within `max_delta` of the old one.
pub open spec fn clamped(old_price: int, suggested: int, max_delta: int) -> int {
    if suggested > old_price + max_delta {
        old_price + max_delta
    } else if suggested < old_price - max_delta {
        old_price - max_delta
    } else {
        suggested
    }
}

/// The largest change one update may make to `old_price`.
pub open spec fn max_delta(old_price: int, c: PricingConfig) -> int {
    trunc_div(old_price * c.max_change_bps, 10000)
}

/// Why `update_flight_price` refuses, if it does.
pub open spec fn price_error(
    r: RegistryLedger,
    p: PricingLedger,
    now: u64,
    oracle: Address,
    flight_id: u64,
    input: PriceUpdateInput,
) -> Option<AirlineError> {
    let d = input.factors.demand_bps;
    let c = input.factors.competitor_bps;
    let t = input.factors.time_to_departure_bps;
    match p.config {
        None => Some(AirlineError::PricingNotInitialized),
        Some(cfg) => if cfg.oracle != oracle {
            Some(AirlineError::Unauthorized)
        } else {
            match r.flight(flight_id) {
                None => Some(AirlineError::FlightNotFound),
                Some(f) => if f.status != FlightStatus::Active {
                    Some(AirlineError::FlightNotActive)
                } else if input.base_price <= 0 {
                    Some(AirlineError::InvalidBasePrice)
                } else if cfg.cooldown_secs > 0 && p.last_update(flight_id) is Some && now
                    < p.last_update(flight_id).unwrap() + cfg.cooldown_secs {
                    Some(AirlineError::CooldownActive)
                } else if !fits(10000 + d) || !fits(10000 + d + c) || !fits(10000 + d + c + t) {
                    Some(AirlineError::MathOverflow)
                } else if 10000 + d + c + t <= 0 {
                    Some(AirlineError::InvalidFactors)
                } else if !fits(input.base_price * (10000 + d + c + t)) {
                    Some(AirlineError::MathOverflow)
                } else if f.price <= 0 {
                    Some(AirlineError::InvalidExistingPrice)
                } else if !fits(f.price * cfg.max_change_bps) || !fits(
                    f.price + max_delta(f.price as int, cfg),
                ) || !fits(f.price - max_delta(f.price as int, cfg)) {
                    Some(AirlineError::MathOverflow)
                } else {
                    None
                },
            }
        },
    }
}

/// Seconds in 48 hours, the window in which nearness to departure raises
/// demand.
pub const DEMAND_WINDOW_SECS: i128 = 172800;

/// How full the flight is and how close it departs, in basis points.
pub open spec fn demand_signal(f: Flight, now: u64) -> int {
    let sold = f.total_seats - f.available_seats;
    let utilization = if f.total_seats == 0 {
        0
    } else {
        sold * 10000 / (f.total_seats as int)
    };
    let ttd: int = if f.departure_time > now {
        f.departure_time - now
    } else {
        0
    };
    let time_bps = if ttd == 0 {
        10000
    } else if ttd >= DEMAND_WINDOW_SECS {
        0
    } else {
        (DEMAND_WINDOW_SECS - ttd) * 10000 / (DEMAND_WINDOW_SECS as int)
    };
    (utilization + time_bps) / 2
}

/// The price multiplier that demand gives, in basis points.
pub open spec fn demand_multiplier(f: Flight, c: PricingConfig, now: u64) -> int {
    10000 + trunc_div(c.max_demand_multiplier_bps * demand_signal(f, now), 10000)
}

/// Why `get_current_price` refuses, if it does.
pub open spec fn current_price_error(r: RegistryLedger, p: PricingLedger, now: u64, flight_id: u64) -> Option<
    AirlineError,
> {
    match p.config {
        None => Some(AirlineError::PricingNotInitialized),
        Some(c) => match r.flight(flight_id) {
            None => Some(AirlineError::FlightNotFound),
            Some(f) => if f.price <= 0 {
                Some(AirlineError::InvalidPrice)
            } else if f.available_seats > f.total_seats || !fits(
                c.max_demand_multiplier_bps * demand_signal(f, now),
            ) || !fits(demand_multiplier(f, c, now)) || !fits(
                f.price * demand_multiplier(f, c, now),
            ) {
                Some(AirlineError::MathOverflow)
            } else {
                None
            },
        },
    }
}

/// The airline module's operations.
pub struct AirlineContract;

impl AirlineContract {
    /// Sets the pricing guardrails, once.
    pub fn initialize_pricing(
        pricing: &mut PricingStorage,
        admin: Address,
        oracle: Address,
        cooldown_secs: u64,
        max_change_bps: i128,
        max_demand_multiplier_bps: i128,
    ) -> (r: Result<(), AirlineError>)
        ensures
            ({
                let s = old(pricing)@;
                if s.config is Some {
                    r == Err::<(), _>(AirlineError::AlreadyInitialized) && final(pricing)@ == s
                } else if max_change_bps <= 0 {
                    r == Err::<(), _>(AirlineError::InvalidMaxChange) && final(pricing)@ == s
                } else if max_change_bps > 2000 {
                    r == Err::<(), _>(AirlineError::MaxChangeTooLarge) && final(pricing)@ == s
                } else if max_demand_multiplier_bps < 0 {
                    r == Err::<(), _>(AirlineError::InvalidDemandMultiplier) && final(pricing)@
                        == s
                } else {
                    r is Ok && final(pricing)@ == (PricingLedger {
                        config: Some(
                            PricingConfig {
                                admin,
                                oracle,
                                max_change_bps,
                                cooldown_secs,
                                max_demand_multiplier_bps,
                            },
                        ),
                        ..s
                    })
                }
            }),
    {
        if pricing.config.is_some() {
            return Err(AirlineError::AlreadyInitialized);
        }
        if max_change_bps <= 0 {
            return Err(AirlineError::InvalidMaxChange);
        }
        if max_change_bps > 2000 {
            return Err(AirlineError::MaxChangeTooLarge);
        }
        if max_demand_multiplier_bps < 0 {
            return Err(AirlineError::InvalidDemandMultiplier);
        }
        pricing.config = Some(
            PricingConfig {
                admin,
                oracle,
                max_change_bps,
                cooldown_secs,
                max_demand_multiplier_bps,
            },
        );
        Ok(())
    }

    /// The pricing admin names a new oracle.
    pub fn set_price_oracle(pricing: &mut PricingStorage, admin: Address, oracle: Address) -> (r:
        Result<(), AirlineError>)
        ensures
            ({
                let s = old(pricing)@;
                match s.config {
                    None => r == Err::<(), _>(AirlineError::PricingNotInitialized) && final(pricing)@ == s,
                    Some(c) => if c.admin != admin {
                        r == Err::<(), _>(AirlineError::Unauthorized) && final(pricing)@ == s
                    } else {
                        r is Ok && final(pricing)@ == (PricingLedger {
                            config: Some(PricingConfig { oracle, ..c }),
                            ..s
                        })
                    },
                }
            }),
    {
        let mut cfg = match pricing.config {
            None => return Err(AirlineError::PricingNotInitialized),
            Some(c) => c,
        };
        if cfg.admin != admin {
            return Err(AirlineError::Unauthorized);
        }
        cfg.oracle = oracle;
        pricing.config = Some(cfg);
        Ok(())
    }

    /// Registers an airline, unverified and with no history, replacing an
    /// earlier registration.
    pub fn register_airline(registry: &mut AirlineRegistry, airline: Address, name: String, iata_code: String) -> (r:
        bool)
        ensures
            r,
            final(registry)@ == old(registry)@.with_airline(
                AirlineProfile {
                    address: airline,
                    name,
                    iata_code,
                    is_verified: false,
                    total_flights: 0,
                    total_bookings: 0,
                    rating: 0,
                },
            ),
    {
        registry.set_airline(
            AirlineProfile {
                address: airline,
                name,
                iata_code,
                is_verified: false,
                total_flights: 0,
                total_bookings: 0,
                rating: 0,
            },
        );
        true
    }

    /// Marks a registered airline verified.
    pub fn verify_airline(registry: &mut AirlineRegistry, _admin: Address, airline: Address) -> (r:
        Result<(), AirlineError>)
        ensures
            match old(registry)@.airline(airline) {
                None => r == Err::<(), _>(AirlineError::AirlineNotFound) && final(registry)@ == old(registry)@,
                Some(p) => r is Ok && final(registry)@ == old(registry)@.with_airline(
                    AirlineProfile { is_verified: true, ..p },
                ),
            },
    {
        let mut profile = match registry.get_airline(airline) {
            None => return Err(AirlineError::AirlineNotFound),
            Some(p) => p,
        };
        profile.is_verified = true;
        registry.set_airline(profile);
        Ok(())
    }

    /// A verified airline lists a flight under the next id.
    pub fn create_flight(
        registry: &mut AirlineRegistry,
        airline: Address,
        flight_number: String,
        from_airport: String,
        to_airport: String,
        departure_time: u64,
        arrival_time: u64,
        total_seats: u32,
        price: i128,
        currency: String,
    ) -> (r: Result<u64, AirlineError>)
        ensures
            ({
                let s = old(registry)@;
                let input = FlightInput {
                    flight_number,
                    from_airport,
                    to_airport,
                    departure_time,
                    arrival_time,
                    total_seats,
                    price,
                    currency,
                };
                match s.airline(airline) {
                    None => r == Err::<u64, _>(AirlineError::AirlineNotFound) && final(registry)@
                        == s,
                    Some(p) => if !p.is_verified {
                        r == Err::<u64, _>(AirlineError::AirlineNotVerified) && final(registry)@
                            == s
                    } else if input.arrival_time <= input.departure_time {
                        r == Err::<u64, _>(AirlineError::InvalidFlightTimes) && final(registry)@
                            == s
                    } else if input.total_seats == 0 {
                        r == Err::<u64, _>(AirlineError::InvalidSeatCount) && final(registry)@
                            == s
                    } else if input.price <= 0 {
                        r == Err::<u64, _>(AirlineError::InvalidPrice) && final(registry)@ == s
                    } else if s.next_flight_id == u64::MAX || p.total_flights == u64::MAX {
                        r == Err::<u64, _>(AirlineError::MathOverflow) && final(registry)@ == s
                    } else {
                        &&& r == Ok::<u64, AirlineError>(s.next_flight_id)
                        &&& final(registry)@ == (RegistryLedger {
                            next_flight_id: (s.next_flight_id + 1) as u64,
                            ..s.with_flight(listed(s.next_flight_id, airline, input)).with_airline(
                                AirlineProfile { total_flights: (p.total_flights + 1) as u64, ..p },
                            )
                        })
                    },
                }
            }),
    {
        let input = FlightInput {
            flight_number,
            from_airport,
            to_airport,
            departure_time,
            arrival_time,
            total_seats,
            price,
            currency,
        };
        let mut profile = match registry.get_airline(airline) {
            None => return Err(AirlineError::AirlineNotFound),
            Some(p) => p,
        };
        if !profile.is_verified {
            return Err(AirlineError::AirlineNotVerified);
        }
        if input.arrival_time <= input.departure_time {
            return Err(AirlineError::InvalidFlightTimes);
        }
        if input.total_seats == 0 {
            return Err(AirlineError::InvalidSeatCount);
        }
        if input.price <= 0 {
            return Err(AirlineError::InvalidPrice);
        }
        if registry.next_flight_id == u64::MAX || profile.total_flights == u64::MAX {
            return Err(AirlineError::MathOverflow);
        }
        let flight_id = registry.next_flight_id;
        registry.next_flight_id = flight_id + 1;
        registry.set_flight(
            Flight {
                flight_id,
                airline,
                flight_number: input.flight_number,
                from_airport: input.from_airport,
                to_airport: input.to_airport,
                departure_time: input.departure_time,
                arrival_time: input.arrival_time,
                total_seats: input.total_seats,
                available_seats: input.total_seats,
                price: input.price,
                currency: input.currency,
                status: FlightStatus::Active,
            },
        );
        profile.total_flights = profile.total_flights + 1;
        registry.set_airline(profile);
        Ok(flight_id)
    }

    pub fn get_flight(registry: &AirlineRegistry, flight_id: u64) -> (r: Option<Flight>)
        ensures
            r == registry@.flight(flight_id),
    {
        registry.get_flight(flight_id)
    }

    pub fn get_airline(registry: &AirlineRegistry, address: Address) -> (r: Option<AirlineProfile>)
        ensures
            r == registry@.airline(address),
    {
        registry.get_airline(address)
    }

    /// The flight's airline takes one seat off sale.
    pub fn reserve_seat(registry: &mut AirlineRegistry, airline: Address, flight_id: u64) -> (r: Result<
        (),
        AirlineError,
    >)
        ensures
            match old(registry)@.flight(flight_id) {
                None => r == Err::<(), _>(AirlineError::FlightNotFound) && final(registry)@ == old(registry)@,
                Some(f) => if f.airline != airline {
                    r == Err::<(), _>(AirlineError::Unauthorized) && final(registry)@ == old(registry)@
                } else if f.available_seats == 0 {
                    r == Err::<(), _>(AirlineError::NoSeatsAvailable) && final(registry)@ == old(registry)@
                } else {
                    r is Ok && final(registry)@ == old(registry)@.with_flight(
                        Flight { available_seats: (f.available_seats - 1) as u32, ..f },
                    )
                },
            },
    {
        let mut flight = match registry.get_flight(flight_id) {
            None => return Err(AirlineError::FlightNotFound),
            Some(f) => f,
        };
        if flight.airline != airline {
            return Err(AirlineError::Unauthorized);
        }
        if flight.available_seats == 0 {
            return Err(AirlineError::NoSeatsAvailable);
        }
        flight.available_seats = flight.available_seats - 1;
        registry.set_flight(flight);
        Ok(())
    }

    /// The flight's airline cancels it.
    pub fn cancel_flight(registry: &mut AirlineRegistry, airline: Address, flight_id: u64) -> (r: Result<
        (),
        AirlineError,
    >)
        ensures
            match old(registry)@.flight(flight_id) {
                None => r == Err::<(), _>(AirlineError::FlightNotFound) && final(registry)@ == old(registry)@,
                Some(f) => if f.airline != airline {
                    r == Err::<(), _>(AirlineError::Unauthorized) && final(registry)@ == old(registry)@
                } else {
                    r is Ok && final(registry)@ == old(registry)@.with_flight(
                        Flight { status: FlightStatus::Cancelled, ..f },
                    )
                },
            },
    {
        let mut flight = match registry.get_flight(flight_id) {
            None => return Err(AirlineError::FlightNotFound),
            Some(f) => f,
        };
        if flight.airline != airline {
            return Err(AirlineError::Unauthorized);
        }
        flight.status = FlightStatus::Cancelled;
        registry.set_flight(flight);
        Ok(())
    }

    /// A verified airline lists several flights at once; malformed listings
    /// are skipped and reported by their index.
    pub fn batch_create_flights(registry: &mut AirlineRegistry, airline: Address, flights: Vec<FlightInput>) -> (r:
        Result<BatchCreateFlightsResult, AirlineError>)
        ensures
            ({
                let s = old(registry)@;
                if flights@.len() == 0 {
                    r is Err && r->Err_0 == AirlineError::EmptyBatch && final(registry)@ == s
                } else if flights@.len() > MAX_BATCH_SIZE {
                    r is Err && r->Err_0 == AirlineError::BatchTooLarge && final(registry)@ == s
                } else {
                    match s.airline(airline) {
                        None => r is Err && r->Err_0 == AirlineError::AirlineNotFound && final(
                            registry)@ == s,
                        Some(p) => if !p.is_verified {
                            r is Err && r->Err_0 == AirlineError::AirlineNotVerified && final(
                                registry)@ == s
                        } else if s.next_flight_id + flights@.len() > u64::MAX || p.total_flights
                            + flights@.len() > u64::MAX {
                            r is Err && r->Err_0 == AirlineError::MathOverflow && final(registry)@
                                == s
                        } else {
                            let b = batch_created(airline, flights@, s.next_flight_id);
                            &&& r is Ok
                            &&& r->Ok_0.created_flight_ids@ == b.0
                            &&& r->Ok_0.failures@ == b.1
                            &&& final(registry)@ == (RegistryLedger {
                                flights: s.flights + b.2,
                                next_flight_id: (s.next_flight_id + b.0.len()) as u64,
                                airlines: s.airlines.push(
                                    AirlineProfile {
                                        total_flights: (p.total_flights + b.0.len()) as u64,
                                        ..p
                                    },
                                ),
                            })
                        },
                    }
                }
            }),
    {
        if flights.len() == 0 {
            return Err(AirlineError::EmptyBatch);
        }
        if flights.len() > MAX_BATCH_SIZE {
            return Err(AirlineError::BatchTooLarge);
        }
        let mut profile = match registry.get_airline(airline) {
            None => return Err(AirlineError::AirlineNotFound),
            Some(p) => p,
        };
        if !profile.is_verified {
            return Err(AirlineError::AirlineNotVerified);
        }
        if registry.next_flight_id as u128 + flights.len() as u128 > u64::MAX as u128
            || profile.total_flights as u128 + flights.len() as u128 > u64::MAX as u128 {
            return Err(AirlineError::MathOverflow);
        }
        let ghost s = registry@;
        let ghost next0 = registry@.next_flight_id;
        let mut created_flight_ids: Vec<u64> = Vec::new();
        let mut failures: Vec<BatchFailure> = Vec::new();
        let mut i: usize = 0;
        while i < flights.len()
            invariant
                i <= flights@.len() <= MAX_BATCH_SIZE,
                next0 == s.next_flight_id,
                next0 + flights@.len() <= u64::MAX,
                ({
                    let b = batch_created(airline, flights@.subrange(0, i as int), next0);
                    &&& created_flight_ids@ == b.0
                    &&& failures@ == b.1
                    &&& registry@.flights == s.flights + b.2
                    &&& registry@.next_flight_id == next0 + b.0.len()
                    &&& registry@.airlines == s.airlines
                    &&& b.0.len() <= i
                }),
            decreases flights@.len() - i,
        {
            let ghost pre = flights@.subrange(0, i as int);
            let ghost post = flights@.subrange(0, i + 1);
            proof {
                assert(post.drop_last() =~= pre);
                assert(post.last() == flights@[i as int]);
                lemma_batch_created_len(airline, pre, next0);
            }
            let x = &flights[i];
            if x.arrival_time > x.departure_time && x.total_seats > 0 && x.price > 0 {
                let flight_id = registry.next_flight_id;
                registry.next_flight_id = flight_id + 1;
                let f = Flight {
                    flight_id,
                    airline,
                    flight_number: x.flight_number.clone(),
                    from_airport: x.from_airport.clone(),
                    to_airport: x.to_airport.clone(),
                    departure_time: x.departure_time,
                    arrival_time: x.arrival_time,
                    total_seats: x.total_seats,
                    available_seats: x.total_seats,
                    price: x.price,
                    currency: x.currency.clone(),
                    status: FlightStatus::Active,
                };
                proof {
                    let b = batch_created(airline, pre, next0);
                    assert(f == listed(flight_id, airline, *x));
                    assert(s.flights + b.2.push(f) =~= (s.flights + b.2).push(f));
                }
                registry.flights.push(f);
                created_flight_ids.push(flight_id);
            } else {
                failures.push(
                    BatchFailure { index: i as u32, item_id: 0, reason: BatchFailureReason::BadData },
                );
            }
            i = i + 1;
        }
        proof {
            assert(flights@.subrange(0, i as int) =~= flights@);
        }
        profile.total_flights = profile.total_flights + created_flight_ids.len() as u64;
        registry.set_airline(profile);
        Ok(BatchCreateFlightsResult { created_flight_ids, failures })
    }

    /// The status a status name stands for.
    pub fn parse_status(status: &String) -> (r: Option<FlightStatus>)
        ensures
            r == status_named(status@),
    {
        if *status == "active".to_owned() {
            Some(FlightStatus::Active)
        } else if *status == "cancelled".to_owned() {
            Some(FlightStatus::Cancelled)
        } else if *status == "completed".to_owned() {
            Some(FlightStatus::Completed)
        } else {
            None
        }
    }

    /// An airline sets the status of several of its flights; updates of
    /// missing or foreign flights, or with an unknown status, are skipped and
    /// reported.
    pub fn batch_update_flight_status(
        registry: &mut AirlineRegistry,
        airline: Address,
        updates: Vec<FlightStatusUpdate>,
    ) -> (r: Result<BatchUpdateFlightStatusResult, AirlineError>)
        ensures
            ({
                let s = old(registry)@;
                if updates@.len() == 0 {
                    r is Err && r->Err_0 == AirlineError::EmptyBatch && final(registry)@ == s
                } else if updates@.len() > MAX_BATCH_SIZE {
                    r is Err && r->Err_0 == AirlineError::BatchTooLarge && final(registry)@ == s
                } else {
                    let b = batch_status(s, airline, updates@);
                    &&& r is Ok
                    &&& final(registry)@ == b.0
                    &&& r->Ok_0.updated_flight_ids@ == b.1
                    &&& r->Ok_0.failures@ == b.2
                }
            }),
    {
        if updates.len() == 0 {
            return Err(AirlineError::EmptyBatch);
        }
        if updates.len() > MAX_BATCH_SIZE {
            return Err(AirlineError::BatchTooLarge);
        }
        let ghost s = registry@;
        let mut updated_flight_ids: Vec<u64> = Vec::new();
        let mut failures: Vec<BatchFailure> = Vec::new();
        let mut i: usize = 0;
        while i < updates.len()
            invariant
                i <= updates@.len() <= MAX_BATCH_SIZE,
                ({
                    let b = batch_status(s, airline, updates@.subrange(0, i as int));
                    &&& registry@ == b.0
                    &&& updated_flight_ids@ == b.1
                    &&& failures@ == b.2
                }),
            decreases updates@.len() - i,
        {
            let ghost pre = updates@.subrange(0, i as int);
            let ghost post = updates@.subrange(0, i + 1);
            proof {
                assert(post.drop_last() =~= pre);
                assert(post.last() == updates@[i as int]);
            }
            let u = &updates[i];
            match registry.get_flight(u.flight_id) {
                None => {
                    failures.push(
                        BatchFailure {
                            index: i as u32,
                            item_id: u.flight_id,
                            reason: BatchFailureReason::Missing,
                        },
                    );
                },
                Some(mut flight) => {
                    if flight.airline != airline {
                        failures.push(
                            BatchFailure {
                                index: i as u32,
                                item_id: u.flight_id,
                                reason: BatchFailureReason::Unauthorized,
                            },
                        );
                    } else {
                        match Self::parse_status(&u.status) {
                            None => {
                                failures.push(
                                    BatchFailure {
                                        index: i as u32,
                                        item_id: u.flight_id,
                                        reason: BatchFailureReason::BadStatus,
                                    },
                                );
                            },
                            Some(st) => {
                                flight.status = st;
                                registry.set_flight(flight);
                                updated_flight_ids.push(u.flight_id);
                            },
                        }
                    }
                },
            }
            i = i + 1;
        }
        proof {
            assert(updates@.subrange(0, i as int) =~= updates@);
        }
        Ok(BatchUpdateFlightStatusResult { updated_flight_ids, failures })
    }

    /// The oracle moves an active flight's price toward the price its
    /// factors suggest, by at most the configured share of the old price,
    /// and records the change.
    pub fn update_flight_price(
        registry: &mut AirlineRegistry,
        pricing: &mut PricingStorage,
        now: u64,
        oracle: Address,
        flight_id: u64,
        input: PriceUpdateInput,
    ) -> (r: Result<i128, AirlineError>)
        ensures
            match price_error(old(registry)@, old(pricing)@, now, oracle, flight_id, input) {
                Some(e) => r == Err::<i128, _>(e) && final(registry)@ == old(registry)@ && final(
                    pricing)@ == old(pricing)@,
                None => {
                    let f = old(registry)@.flight(flight_id).unwrap();
                    let cfg = old(pricing)@.config.unwrap();
                    let new_price = clamped(
                        f.price as int,
                        suggested_price(input),
                        max_delta(f.price as int, cfg),
                    ) as i128;
                    &&& r == Ok::<i128, AirlineError>(new_price)
                    &&& final(registry)@ == old(registry)@.with_flight(
                        Flight { price: new_price, ..f },
                    )
                    &&& final(pricing)@ == (PricingLedger {
                        updates: old(pricing)@.updates.push((flight_id, now)),
                        history: old(pricing)@.history.push(
                            (
                                flight_id,
                                PriceHistoryEntry {
                                    timestamp: now,
                                    old_price: f.price,
                                    new_price,
                                    input,
                                },
                            ),
                        ),
                        ..old(pricing)@
                    })
                },
            },
    {
        let cfg = match pricing.config {
            None => return Err(AirlineError::PricingNotInitialized),
            Some(c) => c,
        };
        if cfg.oracle != oracle {
            return Err(AirlineError::Unauthorized);
        }
        let mut flight = match registry.get_flight(flight_id) {
            None => return Err(AirlineError::FlightNotFound),
            Some(f) => f,
        };
        if flight.status != FlightStatus::Active {
            return Err(AirlineError::FlightNotActive);
        }
        if input.base_price <= 0 {
            return Err(AirlineError::InvalidBasePrice);
        }
        if cfg.cooldown_secs > 0 {
            match pricing.get_last_update(flight_id) {
                Some(last) => {
                    if (now as u128) < last as u128 + cfg.cooldown_secs as u128 {
                        return Err(AirlineError::CooldownActive);
                    }
                },
                None => {},
            }
        }
        let f1 = match 10000i128.checked_add(input.factors.demand_bps) {
            None => return Err(AirlineError::MathOverflow),
            Some(v) => v,
        };
        let f2 = match f1.checked_add(input.factors.competitor_bps) {
            None => return Err(AirlineError::MathOverflow),
            Some(v) => v,
        };
        let factor_sum = match f2.checked_add(input.factors.time_to_departure_bps) {
            None => return Err(AirlineError::MathOverflow),
            Some(v) => v,
        };
        if factor_sum <= 0 {
            return Err(AirlineError::InvalidFactors);
        }
        let product = match input.base_price.checked_mul(factor_sum) {
            None => return Err(AirlineError::MathOverflow),
            Some(v) => v,
        };
        let mut suggested = match product.checked_div(10000) {
            None => return Err(AirlineError::MathOverflow),
            Some(v) => v,
        };
        if suggested <= 0 {
            suggested = 1;
        }
        let old_price = flight.price;
        if old_price <= 0 {
            return Err(AirlineError::InvalidExistingPrice);
        }
        let scaled = match old_price.checked_mul(cfg.max_change_bps) {
            None => return Err(AirlineError::MathOverflow),
            Some(v) => v,
        };
        let delta = match scaled.checked_div(10000) {
            None => return Err(AirlineError::MathOverflow),
            Some(v) => v,
        };
        let upper = match old_price.checked_add(delta) {
            None => return Err(AirlineError::MathOverflow),
            Some(v) => v,
        };
        let lower = match old_price.checked_sub(delta) {
            None => return Err(AirlineError::MathOverflow),
            Some(v) => v,
        };
        let new_price = if suggested > upper {
            upper
        } else if suggested < lower {
            lower
        } else {
            suggested
        };
        flight.price = new_price;
        registry.set_flight(flight);
        pricing.updates.push((flight_id, now));
        pricing.history.push(
            (flight_id, PriceHistoryEntry { timestamp: now, old_price, new_price, input }),
        );
        Ok(new_price)
    }

    /// The flight's price changes, oldest first.
    pub fn get_price_history(pricing: &PricingStorage, flight_id: u64) -> (r: Vec<PriceHistoryEntry>)
        ensures
            r@ == pricing@.history_of(flight_id),
    {
        pricing.get_price_history(flight_id)
    }

    /// The flight's price raised by live demand: how full it is and how close
    /// to departure, weighted by the configured maximum multiplier.
    pub fn get_current_price(
        registry: &AirlineRegistry,
        pricing: &PricingStorage,
        now: u64,
        flight_id: u64,
    ) -> (r: Result<i128, AirlineError>)
        ensures
            match current_price_error(registry@, pricing@, now, flight_id) {
                Some(e) => r == Err::<i128, _>(e),
                None => {
                    let f = registry@.flight(flight_id).unwrap();
                    let c = pricing@.config.unwrap();
                    r == Ok::<i128, AirlineError>(
                        trunc_div(f.price * demand_multiplier(f, c, now), 10000) as i128,
                    )
                },
            },
    {
        let cfg = match pricing.config {
            None => return Err(AirlineError::PricingNotInitialized),
            Some(c) => c,
        };
        let flight = match registry.get_flight(flight_id) {
            None => return Err(AirlineError::FlightNotFound),
            Some(f) => f,
        };
        if flight.price <= 0 {
            return Err(AirlineError::InvalidPrice);
        }
        if flight.available_seats > flight.total_seats {
            return Err(AirlineError::MathOverflow);
        }
        let sold = (flight.total_seats - flight.available_seats) as u64;
        let total = flight.total_seats as u64;
        let utilization: u64 = if total == 0 {
            0
        } else {
            sold * 10000 / total
        };
        let ttd: u64 = if flight.departure_time > now {
            flight.departure_time - now
        } else {
            0
        };
        let window: u64 = 172800;
        let time_bps: u64 = if ttd == 0 {
            10000
        } else if ttd >= window {
            0
        } else {
            (window - ttd) * 10000 / window
        };
        let signal = (utilization + time_bps) / 2;
        let weighted = match cfg.max_demand_multiplier_bps.checked_mul(signal as i128) {
            None => return Err(AirlineError::MathOverflow),
            Some(v) => v,
        };
        let boost = match weighted.checked_div(10000) {
            None => return Err(AirlineError::MathOverflow),
            Some(v) => v,
        };
        let multiplier = match 10000i128.checked_add(boost) {
            None => return Err(AirlineError::MathOverflow),
            Some(v) => v,
        };
        let raised = match flight.price.checked_mul(multiplier) {
            None => return Err(AirlineError::MathOverflow),
            Some(v) => v,
        };
        match raised.checked_div(10000) {
            None => Err(AirlineError::MathOverflow),
            Some(v) => Ok(v),
        }
    }
}

} // verus!
