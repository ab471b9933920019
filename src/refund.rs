use vstd::prelude::*;

use crate::address::Address;
use crate::dispute::{basis_points, bps_fits, bps_of};
use crate::seqs::{last_of, lemma_filter_prefix_step};

verus! {

/// Where a refund request stands.
#[derive(Clone, Copy, Debug, PartialEq, Eq, Structural)]
pub enum RefundStatus {
    Pending,
    Approved,
}

#[derive(Clone, Copy, Debug, PartialEq, Eq, Structural)]
pub enum RefundError {
    RequestNotFound,
    AlreadyProcessed,
    NoPolicy,
    DeparturePassed,
    MathOverflow,
}

/// A passenger's request for a refund of a booking.
#[derive(Debug)]
pub struct RefundRequest {
    pub request_id: u64,
    pub booking_id: u64,
    pub passenger: Address,
    pub amount: i128,
    pub currency: String,
    pub reason: String,
    pub status: RefundStatus,
    pub created_at: u64,
    pub processed_at: Option<u64>,
}

/// An airline's refund terms; percentages are basis points of the price.
#[derive(Clone, Copy, Debug, PartialEq, Eq, Structural)]
pub struct RefundPolicy {
    /// At least this long before departure, the full percentage applies.
    pub cancellation_window: u64,
    pub full_refund_percentage: u32,
    pub partial_refund_percentage: u32,
    /// Closer to departure than this, nothing is refunded.
    pub no_refund_window: u64,
}

#[derive(Clone, Copy, Debug, PartialEq, Eq, Structural)]
pub struct PolicyRecord {
    pub airline: Address,
    pub policy: RefundPolicy,
}

/// The records of the refund module; a later record under the same key wins.
pub struct RefundLedger {
    pub requests: Seq<RefundRequest>,
    pub policies: Seq<PolicyRecord>,
}

pub open spec fn of_request(request_id: u64) -> spec_fn(RefundRequest) -> bool {
    |r: RefundRequest| r.request_id == request_id
}

pub open spec fn of_policy(airline: Address) -> spec_fn(PolicyRecord) -> bool {
    |p: PolicyRecord| p.airline == airline
}

impl RefundLedger {
    pub open spec fn request(self, request_id: u64) -> Option<RefundRequest> {
        last_of(self.requests, of_request(request_id))
    }

    pub open spec fn policy(self, airline: Address) -> Option<RefundPolicy> {
        match last_of(self.policies, of_policy(airline)) {
            Some(p) => Some(p.policy),
            None => None,
        }
    }
}

/// The keyed store of the refund module.
pub struct RefundStorageKey {
    requests: Vec<RefundRequest>,
    policies: Vec<PolicyRecord>,
}

impl View for RefundStorageKey {
    type V = RefundLedger;

    closed spec fn view(&self) -> RefundLedger {
        RefundLedger { requests: self.requests@, policies: self.policies@ }
    }
}

/// A copy of a request, field by field.
pub fn copy_request(r: &RefundRequest) -> (c: RefundRequest)
    ensures
        c == *r,
{
    RefundRequest {
        request_id: r.request_id,
        booking_id: r.booking_id,
        passenger: r.passenger,
        amount: r.amount,
        currency: r.currency.clone(),
        reason: r.reason.clone(),
        status: r.status,
        created_at: r.created_at,
        processed_at: r.processed_at,
    }
}

impl RefundStorageKey {
    pub fn new() -> (r: RefundStorageKey)
        ensures
            r@.requests.len() == 0,
            r@.policies.len() == 0,
    {
        RefundStorageKey { requests: Vec::new(), policies: Vec::new() }
    }

    pub fn get_request(&self, request_id: u64) -> (r: Option<RefundRequest>)
        ensures
            r == self@.request(request_id),
    {
        let ghost p = of_request(request_id);
        let mut found: Option<usize> = None;
        let mut i: usize = 0;
        while i < self.requests.len()
            invariant
                i <= self.requests@.len(),
                p == of_request(request_id),
                found is None ==> last_of(self.requests@.subrange(0, i as int), p) is None,
                found is Some ==> found.unwrap() < i && last_of(
                    self.requests@.subrange(0, i as int),
                    p,
                ) == Some(self.requests@[found.unwrap() as int]),
            decreases self.requests@.len() - i,
        {
            proof {
                lemma_filter_prefix_step(self.requests@, p, i as int);
            }
            if self.requests[i].request_id == request_id {
                found = Some(i);
            }
            i = i + 1;
        }
        proof {
            assert(self.requests@.subrange(0, i as int) =~= self.requests@);
        }
        match found {
            None => None,
            Some(k) => Some(copy_request(&self.requests[k])),
        }
    }

    pub fn set_request(&mut self, request: RefundRequest)
        ensures
            final(self)@ == (RefundLedger {
                requests: old(self)@.requests.push(request),
                ..old(self)@
            }),
    {
        self.requests.push(request);
    }

    pub fn get_policy(&self, airline: Address) -> (r: Option<RefundPolicy>)
        ensures
            r == self@.policy(airline),
    {
        let ghost p = of_policy(airline);
        let mut found: Option<PolicyRecord> = None;
        let mut i: usize = 0;
        while i < self.policies.len()
            invariant
                i <= self.policies@.len(),
                p == of_policy(airline),
                found == last_of(self.policies@.subrange(0, i as int), p),
            decreases self.policies@.len() - i,
        {
            proof {
                lemma_filter_prefix_step(self.policies@, p, i as int);
            }
            let rec = self.policies[i];
            if rec.airline == airline {
                found = Some(rec);
            }
            i = i + 1;
        }
        proof {
            assert(self.policies@.subrange(0, i as int) =~= self.policies@);
        }
        match found {
            Some(rec) => Some(rec.policy),
            None => None,
        }
    }

    pub fn set_policy(&mut self, airline: Address, policy: RefundPolicy)
        ensures
            final(self)@ == (RefundLedger {
                policies: old(self)@.policies.push(PolicyRecord { airline, policy }),
                ..old(self)@
            }),
    {
        self.policies.push(PolicyRecord { airline, policy });
    }
}

/// The refund an airline's policy grants on `original_price` when the
/// departure is `until_departure` seconds away.
pub open spec fn refund_amount(p: RefundPolicy, original_price: i128, until_departure: int) -> int {
    if until_departure >= p.cancellation_window {
        bps_of(original_price as int, p.full_refund_percentage as int)
    } else if until_departure >= p.no_refund_window {
        bps_of(original_price as int, p.partial_refund_percentage as int)
    } else {
        0
    }
}

/// The percentage of a policy that applies `until_departure` seconds ahead,
/// none where nothing is refunded.
pub open spec fn applied_percentage(p: RefundPolicy, until_departure: int) -> Option<u32> {
    if until_departure >= p.cancellation_window {
        Some(p.full_refund_percentage)
    } else if until_departure >= p.no_refund_window {
        Some(p.partial_refund_percentage)
    } else {
        None
    }
}

/// The refund module's operations.
pub struct RefundContract;

impl RefundContract {
    /// An airline sets its refund terms, replacing earlier ones.
    pub fn set_refund_policy(
        store: &mut RefundStorageKey,
        airline: Address,
        cancellation_window: u64,
        full_refund_percentage: u32,
        partial_refund_percentage: u32,
        no_refund_window: u64,
    )
        ensures
            final(store)@.requests == old(store)@.requests,
            final(store)@.policy(airline) == Some(
                RefundPolicy {
                    cancellation_window,
                    full_refund_percentage,
                    partial_refund_percentage,
                    no_refund_window,
                },
            ),
            final(store)@ == (RefundLedger {
                policies: old(store)@.policies.push(
                    PolicyRecord {
                        airline,
                        policy: RefundPolicy {
                            cancellation_window,
                            full_refund_percentage,
                            partial_refund_percentage,
                            no_refund_window,
                        },
                    },
                ),
                ..old(store)@
            }),
    {
        let policy = RefundPolicy {
            cancellation_window,
            full_refund_percentage,
            partial_refund_percentage,
            no_refund_window,
        };
        store.set_policy(airline, policy);
        proof {
            crate::seqs::lemma_filter_push(
                old(store)@.policies,
                PolicyRecord { airline, policy },
                of_policy(airline),
            );
        }
    }

    /// Records a pending refund request; its id is the ledger time, so a
    /// request made at the same time replaces the earlier one.
    pub fn request_refund(
        store: &mut RefundStorageKey,
        now: u64,
        passenger: Address,
        booking_id: u64,
        amount: i128,
        currency: String,
        reason: String,
    ) -> (r: u64)
        ensures
            r == now,
            final(store)@.policies == old(store)@.policies,
            final(store)@.requests == old(store)@.requests.push(
                RefundRequest {
                    request_id: now,
                    booking_id,
                    passenger,
                    amount,
                    currency,
                    reason,
                    status: RefundStatus::Pending,
                    created_at: now,
                    processed_at: None,
                },
            ),
    {
        store.set_request(
            RefundRequest {
                request_id: now,
                booking_id,
                passenger,
                amount,
                currency,
                reason,
                status: RefundStatus::Pending,
                created_at: now,
                processed_at: None,
            },
        );
        now
    }

    /// Approves a pending request; the token transfer itself happens
    /// elsewhere. Returns the approved request.
    pub fn process_refund(store: &mut RefundStorageKey, now: u64, _admin: Address, request_id: u64) -> (r:
        Result<RefundRequest, RefundError>)
        ensures
            old(store)@.request(request_id) is None ==> r == Err::<RefundRequest, _>(
                RefundError::RequestNotFound,
            ) && final(store)@ == old(store)@,
            old(store)@.request(request_id) matches Some(q) ==> {
                if q.status != RefundStatus::Pending {
                    r == Err::<RefundRequest, _>(RefundError::AlreadyProcessed) && final(store)@
                        == old(store)@
                } else {
                    let a = RefundRequest {
                        status: RefundStatus::Approved,
                        processed_at: Some(now),
                        ..q
                    };
                    &&& r == Ok::<_, RefundError>(a)
                    &&& final(store)@ == (RefundLedger {
                        requests: old(store)@.requests.push(a),
                        ..old(store)@
                    })
                }
            },
    {
        let mut request = match store.get_request(request_id) {
            None => return Err(RefundError::RequestNotFound),
            Some(q) => q,
        };
        if request.status != RefundStatus::Pending {
            return Err(RefundError::AlreadyProcessed);
        }
        request.status = RefundStatus::Approved;
        request.processed_at = Some(now);
        let approved = copy_request(&request);
        store.set_request(request);
        Ok(approved)
    }

    pub fn get_refund_request(store: &RefundStorageKey, request_id: u64) -> (r: Option<RefundRequest>)
        ensures
            r == store@.request(request_id),
    {
        store.get_request(request_id)
    }

    pub fn get_refund_policy(store: &RefundStorageKey, airline: Address) -> (r: Option<RefundPolicy>)
        ensures
            r == store@.policy(airline),
    {
        store.get_policy(airline)
    }

    /// What the airline's policy refunds on `original_price` for a departure
    /// at `departure_time`: the full percentage outside the cancellation
    /// window, the partial one outside the no-refund window, else nothing.
    pub fn calculate_refund(
        store: &RefundStorageKey,
        now: u64,
        airline: Address,
        original_price: i128,
        departure_time: u64,
    ) -> (r: Result<i128, RefundError>)
        ensures
            store@.policy(airline) is None ==> r == Err::<i128, _>(RefundError::NoPolicy),
            store@.policy(airline) matches Some(p) ==> {
                let until = departure_time - now;
                if departure_time < now {
                    r == Err::<i128, _>(RefundError::DeparturePassed)
                } else if applied_percentage(p, until) matches Some(pct) && !bps_fits(
                    original_price as int,
                    pct as int,
                ) {
                    r == Err::<i128, _>(RefundError::MathOverflow)
                } else {
                    r == Ok::<i128, RefundError>(refund_amount(p, original_price, until) as i128)
                }
            },
    {
        let policy = match store.get_policy(airline) {
            None => return Err(RefundError::NoPolicy),
            Some(p) => p,
        };
        if departure_time < now {
            return Err(RefundError::DeparturePassed);
        }
        let until = departure_time - now;
        let pct = if until >= policy.cancellation_window {
            policy.full_refund_percentage
        } else if until >= policy.no_refund_window {
            policy.partial_refund_percentage
        } else {
            return Ok(0);
        };
        match basis_points(original_price, pct) {
            None => Err(RefundError::MathOverflow),
            Some(v) => Ok(v),
        }
    }
}

} // verus!
