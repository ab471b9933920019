use vstd::prelude::*;

use crate::address::Address;
use crate::crypto::{bytes32_eq, keccak256, keccak_of};
use crate::seqs::{last_of, lemma_filter_prefix, lemma_filter_prefix_step};

verus! {

#[derive(Clone, Copy, Debug, PartialEq, Eq, Structural)]
pub enum OracleError {
    AlreadyInitialized,
    NotInitialized,
    InvalidMinStake,
    InvalidThreshold,
    Unauthorized,
    InsufficientStake,
    AlreadyRegistered,
    ProviderNotRegistered,
    ProviderSlashed,
    InvalidProof,
    InsufficientConsensus,
}

#[derive(Clone, Copy, Debug, PartialEq, Eq, Structural)]
pub struct OracleProvider {
    pub address: Address,
    pub stake: i128,
    pub registered_at: u64,
    pub slashed: bool,
}

#[derive(Clone, Copy, Debug, PartialEq, Eq, Structural)]
pub struct OracleConfig {
    pub admin: Address,
    pub min_stake: i128,
    /// How many matching reports settle a booking.
    pub consensus_threshold: u32,
    pub booking_contract: Address,
}

/// A provider's report of a flight's status for one booking, with the proof
/// digest over the booking id and the timestamp.
#[derive(Debug)]
pub struct FlightStatusReport {
    pub flight_number: String,
    pub booking_id: u64,
    pub status: String,
    pub provider: Address,
    pub timestamp: u64,
    pub proof: [u8; 32],
}

/// The booking contract call that a reached consensus asks for.
#[derive(Clone, Copy, Debug, PartialEq, Eq, Structural)]
pub enum Settlement {
    /// Release the escrowed payment of the booking to the airline.
    ReleasePayment { booking_contract: Address, booking_id: u64 },
    /// Refund the booking to the passenger after the airline cancelled.
    RefundCancellation { booking_contract: Address, booking_id: u64 },
}

/// The records of the oracle module.
pub struct OracleLedger {
    pub config: Option<OracleConfig>,
    pub providers: Seq<OracleProvider>,
    pub reports: Seq<FlightStatusReport>,
}

pub open spec fn of_provider(address: Address) -> spec_fn(OracleProvider) -> bool {
    |p: OracleProvider| p.address == address
}

pub open spec fn of_flight(flight_number: Seq<char>, booking_id: u64) -> spec_fn(FlightStatusReport) -> bool {
    |r: FlightStatusReport| r.flight_number@ == flight_number && r.booking_id == booking_id
}

pub open spec fn of_status(flight_number: Seq<char>, booking_id: u64, status: Seq<char>) -> spec_fn(
    FlightStatusReport,
) -> bool {
    |r: FlightStatusReport|
        r.flight_number@ == flight_number && r.booking_id == booking_id && r.status@ == status
}

impl OracleLedger {
    pub open spec fn provider(self, address: Address) -> Option<OracleProvider> {
        last_of(self.providers, of_provider(address))
    }

    /// The reports on a booking of a flight, in the order they came.
    pub open spec fn reports_of(self, flight_number: Seq<char>, booking_id: u64) -> Seq<
        FlightStatusReport,
    > {
        self.reports.filter(of_flight(flight_number, booking_id))
    }

    /// How many reports give a booking of a flight the same status.
    pub open spec fn status_count(self, flight_number: Seq<char>, booking_id: u64, status: Seq<char>) -> nat {
        self.reports.filter(of_status(flight_number, booking_id, status)).len()
    }
}

/// The big-endian bytes of a `u64`.
pub open spec fn be_bytes(x: u64) -> Seq<u8> {
    seq![
        (x >> 56u64) as u8,
        (x >> 48u64) as u8,
        (x >> 40u64) as u8,
        (x >> 32u64) as u8,
        (x >> 24u64) as u8,
        (x >> 16u64) as u8,
        (x >> 8u64) as u8,
        x as u8,
    ]
}

/// The bytes that a report's proof is the digest of.
pub open spec fn proof_message(booking_id: u64, timestamp: u64) -> Seq<u8> {
    be_bytes(booking_id) + be_bytes(timestamp)
}

fn push_be_bytes(out: &mut Vec<u8>, x: u64)
    ensures
        final(out)@ == old(out)@ + be_bytes(x),
{
    out.push((x >> 56u64) as u8);
    out.push((x >> 48u64) as u8);
    out.push((x >> 40u64) as u8);
    out.push((x >> 32u64) as u8);
    out.push((x >> 24u64) as u8);
    out.push((x >> 16u64) as u8);
    out.push((x >> 8u64) as u8);
    out.push(x as u8);
    assert(out@ =~= old(out)@ + be_bytes(x));
}

/// The oracle module's keyed store.
pub struct OracleStorage {
    config: Option<OracleConfig>,
    providers: Vec<OracleProvider>,
    reports: Vec<FlightStatusReport>,
}

impl View for OracleStorage {
    type V = OracleLedger;

    closed spec fn view(&self) -> OracleLedger {
        OracleLedger { config: self.config, providers: self.providers@, reports: self.reports@ }
    }
}

pub fn copy_report(r: &FlightStatusReport) -> (c: FlightStatusReport)
    ensures
        c == *r,
{
    FlightStatusReport {
        flight_number: r.flight_number.clone(),
        booking_id: r.booking_id,
        status: r.status.clone(),
        provider: r.provider,
        timestamp: r.timestamp,
        proof: r.proof,
    }
}

impl OracleStorage {
    pub fn new() -> (r: OracleStorage)
        ensures
            r@.config is None,
            r@.providers.len() == 0,
            r@.reports.len() == 0,
    {
        OracleStorage { config: None, providers: Vec::new(), reports: Vec::new() }
    }

    pub fn get_config(&self) -> (r: Option<OracleConfig>)
        ensures
            r == self@.config,
    {
        self.config
    }

    pub fn set_config(&mut self, cfg: OracleConfig)
        ensures
            final(self)@ == (OracleLedger { config: Some(cfg), ..old(self)@ }),
    {
        self.config = Some(cfg);
    }

    pub fn get_provider(&self, addr: Address) -> (r: Option<OracleProvider>)
        ensures
            r == self@.provider(addr),
    {
        let ghost p = of_provider(addr);
        let mut found: Option<OracleProvider> = None;
        let mut i: usize = 0;
        while i < self.providers.len()
            invariant
                i <= self.providers@.len(),
                p == of_provider(addr),
                found == last_of(self.providers@.subrange(0, i as int), p),
            decreases self.providers@.len() - i,
        {
            proof {
                lemma_filter_prefix_step(self.providers@, p, i as int);
            }
            let prov = self.providers[i];
            if prov.address == addr {
                found = Some(prov);
            }
            i = i + 1;
        }
        proof {
            assert(self.providers@.subrange(0, i as int) =~= self.providers@);
        }
        found
    }

    pub fn set_provider(&mut self, prov: OracleProvider)
        ensures
            final(self)@ == (OracleLedger {
                providers: old(self)@.providers.push(prov),
                ..old(self)@
            }),
    {
        self.providers.push(prov);
    }

    /// How many reports give the booking of the flight this status.
    pub fn status_count(&self, flight_number: &String, booking_id: u64, status: &String) -> (r: usize)
        ensures
            r == self@.status_count(flight_number@, booking_id, status@),
    {
        let ghost p = of_status(flight_number@, booking_id, status@);
        let mut seen: usize = 0;
        let mut i: usize = 0;
        while i < self.reports.len()
            invariant
                i <= self.reports@.len(),
                p == of_status(flight_number@, booking_id, status@),
                seen as int == self.reports@.subrange(0, i as int).filter(p).len(),
                seen <= i,
            decreases self.reports@.len() - i,
        {
            proof {
                lemma_filter_prefix_step(self.reports@, p, i as int);
            }
            let r = &self.reports[i];
            if r.booking_id == booking_id && r.flight_number == *flight_number && r.status
                == *status {
                seen = seen + 1;
            }
            i = i + 1;
        }
        proof {
            assert(self.reports@.subrange(0, i as int) =~= self.reports@);
        }
        seen
    }

    /// The `idx`-th report on the booking of the flight.
    pub fn get_report(&self, flight_number: &String, booking_id: u64, idx: u32) -> (r: Option<
        FlightStatusReport,
    >)
        ensures
            r is Some <==> idx < self@.reports_of(flight_number@, booking_id).len(),
            r is Some ==> r.unwrap() == self@.reports_of(flight_number@, booking_id)[idx as int],
    {
        let ghost p = of_flight(flight_number@, booking_id);
        let mut seen: u32 = 0;
        let mut i: usize = 0;
        while i < self.reports.len()
            invariant
                i <= self.reports@.len(),
                p == of_flight(flight_number@, booking_id),
                seen as int == self.reports@.subrange(0, i as int).filter(p).len(),
                seen <= idx,
            decreases self.reports@.len() - i,
        {
            proof {
                lemma_filter_prefix_step(self.reports@, p, i as int);
            }
            let r = &self.reports[i];
            if r.booking_id == booking_id && r.flight_number == *flight_number {
                if seen == idx {
                    proof {
                        lemma_filter_prefix(self.reports@, p, i + 1);
                        assert(self.reports@.subrange(0, i + 1).filter(p)[seen as int] == *r);
                    }
                    return Some(copy_report(r));
                }
                seen = seen + 1;
            }
            i = i + 1;
        }
        proof {
            assert(self.reports@.subrange(0, i as int) =~= self.reports@);
        }
        None
    }

    /// Appends a report after the earlier ones on its booking.
    pub fn add_report(&mut self, report: FlightStatusReport)
        ensures
            final(self)@ == (OracleLedger {
                reports: old(self)@.reports.push(report),
                ..old(self)@
            }),
    {
        self.reports.push(report);
    }
}

/// Why `submit_flight_status` refuses, if it does, given the digest of the
/// proof message.
pub open spec fn submit_error(s: OracleLedger, provider: Address, digest: Seq<u8>, proof: [u8; 32]) -> Option<
    OracleError,
> {
    match s.provider(provider) {
        None => Some(OracleError::ProviderNotRegistered),
        Some(p) => if p.slashed {
            Some(OracleError::ProviderSlashed)
        } else if digest != proof@ {
            Some(OracleError::InvalidProof)
        } else {
            None
        },
    }
}

/// Why a settlement on `status` is refused, if it is.
pub open spec fn consensus_error(s: OracleLedger, flight_number: Seq<char>, booking_id: u64, status: Seq<char>) -> Option<
    OracleError,
> {
    match s.config {
        None => Some(OracleError::NotInitialized),
        Some(c) => if s.status_count(flight_number, booking_id, status) < c.consensus_threshold {
            Some(OracleError::InsufficientConsensus)
        } else {
            None
        },
    }
}

/// The flight oracle's operations.
pub struct FlightOracle;

impl FlightOracle {
    pub fn initialize(
        store: &mut OracleStorage,
        admin: Address,
        min_stake: i128,
        consensus_threshold: u32,
        booking_contract: Address,
    ) -> (r: Result<(), OracleError>)
        ensures
            ({
                let s = old(store)@;
                if s.config is Some {
                    r == Err::<(), _>(OracleError::AlreadyInitialized) && final(store)@ == s
                } else if min_stake <= 0 {
                    r == Err::<(), _>(OracleError::InvalidMinStake) && final(store)@ == s
                } else if consensus_threshold == 0 {
                    r == Err::<(), _>(OracleError::InvalidThreshold) && final(store)@ == s
                } else {
                    r is Ok && final(store)@ == (OracleLedger {
                        config: Some(
                            OracleConfig { admin, min_stake, consensus_threshold, booking_contract },
                        ),
                        ..s
                    })
                }
            }),
    {
        if store.get_config().is_some() {
            return Err(OracleError::AlreadyInitialized);
        }
        if min_stake <= 0 {
            return Err(OracleError::InvalidMinStake);
        }
        if consensus_threshold == 0 {
            return Err(OracleError::InvalidThreshold);
        }
        store.set_config(OracleConfig { admin, min_stake, consensus_threshold, booking_contract });
        Ok(())
    }

    /// The admin registers a provider that stakes at least the minimum.
    pub fn register_oracle_provider(
        store: &mut OracleStorage,
        now: u64,
        admin: Address,
        provider: Address,
        stake: i128,
    ) -> (r: Result<(), OracleError>)
        ensures
            ({
                let s = old(store)@;
                match s.config {
                    None => r == Err::<(), _>(OracleError::NotInitialized) && final(store)@ == s,
                    Some(c) => if c.admin != admin {
                        r == Err::<(), _>(OracleError::Unauthorized) && final(store)@ == s
                    } else if stake < c.min_stake {
                        r == Err::<(), _>(OracleError::InsufficientStake) && final(store)@ == s
                    } else if s.provider(provider) is Some {
                        r == Err::<(), _>(OracleError::AlreadyRegistered) && final(store)@ == s
                    } else {
                        r is Ok && final(store)@ == (OracleLedger {
                            providers: s.providers.push(
                                OracleProvider {
                                    address: provider,
                                    stake,
                                    registered_at: now,
                                    slashed: false,
                                },
                            ),
                            ..s
                        })
                    },
                }
            }),
    {
        let cfg = match store.get_config() {
            None => return Err(OracleError::NotInitialized),
            Some(c) => c,
        };
        if cfg.admin != admin {
            return Err(OracleError::Unauthorized);
        }
        if stake < cfg.min_stake {
            return Err(OracleError::InsufficientStake);
        }
        if store.get_provider(provider).is_some() {
            return Err(OracleError::AlreadyRegistered);
        }
        store.set_provider(OracleProvider { address: provider, stake, registered_at: now, slashed: false });
        Ok(())
    }

    /// The message whose Keccak-256 digest proves a report.
    pub fn proof_message(booking_id: u64, timestamp: u64) -> (r: Vec<u8>)
        ensures
            r@ == proof_message(booking_id, timestamp),
    {
        let mut msg: Vec<u8> = Vec::new();
        push_be_bytes(&mut msg, booking_id);
        push_be_bytes(&mut msg, timestamp);
        assert(msg@ =~= proof_message(booking_id, timestamp));
        msg
    }

    /// Records a registered provider's report, given the digest of its proof
    /// message; the digest must equal the report's proof.
    pub fn submit_flight_status_with_digest(
        store: &mut OracleStorage,
        provider: Address,
        flight_number: String,
        booking_id: u64,
        status: String,
        timestamp: u64,
        proof: [u8; 32],
        digest: [u8; 32],
    ) -> (r: Result<(), OracleError>)
        ensures
            match submit_error(old(store)@, provider, digest@, proof) {
                Some(e) => r == Err::<(), _>(e) && final(store)@ == old(store)@,
                None => r is Ok && final(store)@ == (OracleLedger {
                    reports: old(store)@.reports.push(
                        FlightStatusReport {
                            flight_number,
                            booking_id,
                            status,
                            provider,
                            timestamp,
                            proof,
                        },
                    ),
                    ..old(store)@
                }),
            },
    {
        let prov = match store.get_provider(provider) {
            None => return Err(OracleError::ProviderNotRegistered),
            Some(p) => p,
        };
        if prov.slashed {
            return Err(OracleError::ProviderSlashed);
        }
        if !bytes32_eq(&digest, &proof) {
            return Err(OracleError::InvalidProof);
        }
        store.add_report(
            FlightStatusReport { flight_number, booking_id, status, provider, timestamp, proof },
        );
        Ok(())
    }

    /// Records a registered provider's report; its proof must be the
    /// Keccak-256 digest of the booking id and the timestamp, big-endian.
    pub fn submit_flight_status(
        env: &soroban_sdk::Env,
        store: &mut OracleStorage,
        provider: Address,
        flight_number: String,
        booking_id: u64,
        status: String,
        timestamp: u64,
        proof: [u8; 32],
    ) -> (r: Result<(), OracleError>)
        ensures
            match submit_error(
                old(store)@,
                provider,
                keccak_of(proof_message(booking_id, timestamp)),
                proof,
            ) {
                Some(e) => r == Err::<(), _>(e) && final(store)@ == old(store)@,
                None => r is Ok && final(store)@ == (OracleLedger {
                    reports: old(store)@.reports.push(
                        FlightStatusReport {
                            flight_number,
                            booking_id,
                            status,
                            provider,
                            timestamp,
                            proof,
                        },
                    ),
                    ..old(store)@
                }),
            },
    {
        let msg = Self::proof_message(booking_id, timestamp);
        let digest = keccak256(env, msg.as_slice());
        Self::submit_flight_status_with_digest(
            store,
            provider,
            flight_number,
            booking_id,
            status,
            timestamp,
            proof,
            digest,
        )
    }

    /// Once enough providers report the flight completed, asks the booking
    /// contract to release the payment.
    pub fn verify_flight_completion(store: &OracleStorage, flight_number: &String, booking_id: u64) -> (r:
        Result<Settlement, OracleError>)
        ensures
            match consensus_error(store@, flight_number@, booking_id, "completed"@) {
                Some(e) => r == Err::<Settlement, _>(e),
                None => r == Ok::<_, OracleError>(
                    Settlement::ReleasePayment {
                        booking_contract: store@.config.unwrap().booking_contract,
                        booking_id,
                    },
                ),
            },
    {
        let status = "completed".to_owned();
        let cfg = match store.get_config() {
            None => return Err(OracleError::NotInitialized),
            Some(c) => c,
        };
        let count = store.status_count(flight_number, booking_id, &status);
        if count < cfg.consensus_threshold as usize {
            return Err(OracleError::InsufficientConsensus);
        }
        Ok(Settlement::ReleasePayment { booking_contract: cfg.booking_contract, booking_id })
    }

    /// Once enough providers report the flight cancelled, asks the booking
    /// contract to refund the passenger.
    pub fn verify_airline_cancellation(store: &OracleStorage, flight_number: &String, booking_id: u64) -> (r:
        Result<Settlement, OracleError>)
        ensures
            match consensus_error(store@, flight_number@, booking_id, "cancelled"@) {
                Some(e) => r == Err::<Settlement, _>(e),
                None => r == Ok::<_, OracleError>(
                    Settlement::RefundCancellation {
                        booking_contract: store@.config.unwrap().booking_contract,
                        booking_id,
                    },
                ),
            },
    {
        let status = "cancelled".to_owned();
        let cfg = match store.get_config() {
            None => return Err(OracleError::NotInitialized),
            Some(c) => c,
        };
        let count = store.status_count(flight_number, booking_id, &status);
        if count < cfg.consensus_threshold as usize {
            return Err(OracleError::InsufficientConsensus);
        }
        Ok(Settlement::RefundCancellation { booking_contract: cfg.booking_contract, booking_id })
    }
}

} // verus!
