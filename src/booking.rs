use vstd::prelude::*;

use crate::address::Address;
use crate::seqs::{last_of, lemma_filter_prefix_step};

verus! {

/// How long a cached token balance stays fresh, in seconds.
pub const BALANCE_CACHE_TTL_SECS: u64 = 30;

/// The notice a passenger must give before departure to cancel, in seconds.
pub const CANCELLATION_NOTICE_SECS: u64 = 86400;

#[derive(Clone, Copy, Debug, PartialEq, Eq, Structural)]
pub enum BookingStatus {
    Pending,
    Confirmed,
    Completed,
    Refunded,
}

#[derive(Clone, Copy, Debug, PartialEq, Eq, Structural)]
pub enum BookingError {
    BookingNotFound,
    AlreadyPaidOrCancelled,
    InvalidBookingStatus,
    NoFundsInEscrow,
    CancellationWindowClosed,
    CannotBeRefunded,
    OracleNotConfigured,
    OracleAlreadyConfigured,
    Unauthorized,
    NoBookings,
    MixedTokens,
    MathOverflow,
}

#[derive(Debug)]
pub struct Booking {
    pub booking_id: u64,
    pub passenger: Address,
    pub airline: Address,
    pub flight_number: String,
    pub from_airport: String,
    pub to_airport: String,
    pub departure_time: u64,
    pub price: i128,
    pub token: Address,
    pub amount_escrowed: i128,
    pub status: BookingStatus,
    pub created_at: u64,
}

/// A token balance read from the token contract, and when.
#[derive(Clone, Copy, Debug, PartialEq, Eq, Structural)]
pub struct CachedBalance {
    pub amount: i128,
    pub cached_at: u64,
}

#[derive(Clone, Copy, Debug, PartialEq, Eq, Structural)]
pub struct CacheEntry {
    pub token: Address,
    pub account: Address,
    /// `None` once a transfer has made the cached value stale.
    pub cached: Option<CachedBalance>,
}

/// A token transfer that the host must make for an operation to take effect.
#[derive(Clone, Copy, Debug, PartialEq, Eq, Structural)]
pub struct TokenTransfer {
    pub token: Address,
    pub from: Address,
    pub to: Address,
    pub amount: i128,
}

/// The booking records; a later record under the same key wins.
pub struct BookingLedger {
    pub bookings: Seq<Booking>,
    pub oracle: Option<Address>,
    pub cache: Seq<CacheEntry>,
}

pub open spec fn of_booking(booking_id: u64) -> spec_fn(Booking) -> bool {
    |b: Booking| b.booking_id == booking_id
}

pub open spec fn of_cache(token: Address, account: Address) -> spec_fn(CacheEntry) -> bool {
    |e: CacheEntry| e.token == token && e.account == account
}

pub open spec fn fits(x: int) -> bool {
    i128::MIN <= x <= i128::MAX
}

impl BookingLedger {
    pub open spec fn booking(self, booking_id: u64) -> Option<Booking> {
        last_of(self.bookings, of_booking(booking_id))
    }

    pub open spec fn cached(self, token: Address, account: Address) -> Option<CachedBalance> {
        match last_of(self.cache, of_cache(token, account)) {
            Some(e) => e.cached,
            None => None,
        }
    }

    pub open spec fn with_booking(self, b: Booking) -> BookingLedger {
        BookingLedger { bookings: self.bookings.push(b), ..self }
    }

    /// The records with the cached balances of both sides of a transfer
    /// dropped.
    pub open spec fn invalidated(self, token: Address, from: Address, to: Address) -> BookingLedger {
        BookingLedger {
            cache: self.cache.push(CacheEntry { token, account: from, cached: None }).push(
                CacheEntry { token, account: to, cached: None },
            ),
            ..self
        }
    }
}

/// Whether a booking is still open to a refund.
pub open spec fn refundable(b: Booking) -> bool {
    b.status == BookingStatus::Confirmed || b.status == BookingStatus::Pending
}

/// The records after releasing the escrow of each booking of `ids` to
/// `airline`, with the token and the total; or why the batch fails.
pub open spec fn batch_release(s: BookingLedger, airline: Address, ids: Seq<u64>) -> Result<
    (BookingLedger, Option<Address>, int),
    BookingError,
>
    decreases ids.len(),
{
    if ids.len() == 0 {
        Ok((s, None, 0))
    } else {
        match batch_release(s, airline, ids.drop_last()) {
            Err(e) => Err(e),
            Ok((s1, token, total)) => match s1.booking(ids.last()) {
                None => Err(BookingError::BookingNotFound),
                Some(b) => if b.airline != airline {
                    Err(BookingError::Unauthorized)
                } else if b.status != BookingStatus::Confirmed {
                    Err(BookingError::InvalidBookingStatus)
                } else if b.amount_escrowed <= 0 {
                    Err(BookingError::NoFundsInEscrow)
                } else if token is Some && token.unwrap() != b.token {
                    Err(BookingError::MixedTokens)
                } else if !fits(total + b.amount_escrowed) {
                    Err(BookingError::MathOverflow)
                } else {
                    Ok(
                        (
                            s1.with_booking(
                                Booking {
                                    amount_escrowed: 0,
                                    status: BookingStatus::Completed,
                                    ..b
                                },
                            ),
                            Some(b.token),
                            total + b.amount_escrowed,
                        ),
                    )
                },
            },
        }
    }
}

/// The records after refunding each booking of `ids` to `passenger` at
/// `now`, with the token and the total; or why the batch fails.
pub open spec fn batch_refund(s: BookingLedger, passenger: Address, now: u64, ids: Seq<u64>) -> Result<
    (BookingLedger, Option<Address>, int),
    BookingError,
>
    decreases ids.len(),
{
    if ids.len() == 0 {
        Ok((s, None, 0))
    } else {
        match batch_refund(s, passenger, now, ids.drop_last()) {
            Err(e) => Err(e),
            Ok((s1, token, total)) => match s1.booking(ids.last()) {
                None => Err(BookingError::BookingNotFound),
                Some(b) => if b.passenger != passenger {
                    Err(BookingError::Unauthorized)
                } else if now + CANCELLATION_NOTICE_SECS >= b.departure_time {
                    Err(BookingError::CancellationWindowClosed)
                } else if !refundable(b) {
                    Err(BookingError::CannotBeRefunded)
                } else if token is Some && token.unwrap() != b.token {
                    Err(BookingError::MixedTokens)
                } else if !fits(total + b.amount_escrowed) {
                    Err(BookingError::MathOverflow)
                } else {
                    Ok(
                        (
                            s1.with_booking(
                                Booking { amount_escrowed: 0, status: BookingStatus::Refunded, ..b },
                            ),
                            Some(b.token),
                            total + b.amount_escrowed,
                        ),
                    )
                },
            },
        }
    }
}

/// Once a prefix of a batch release is refused, the whole batch is, for the
/// same reason.
proof fn lemma_release_refused(s: BookingLedger, airline: Address, ids: Seq<u64>, k: int, e: BookingError)
    requires
        0 <= k <= ids.len(),
        batch_release(s, airline, ids.subrange(0, k)) == Err::<(BookingLedger, Option<Address>, int), _>(e),
    ensures
        batch_release(s, airline, ids) == Err::<(BookingLedger, Option<Address>, int), _>(e),
    decreases ids.len() - k,
{
    if k == ids.len() {
        assert(ids.subrange(0, k) =~= ids);
    } else {
        let next = ids.subrange(0, k + 1);
        assert(next.drop_last() =~= ids.subrange(0, k));
        lemma_release_refused(s, airline, ids, k + 1, e);
    }
}

/// Once a prefix of a batch refund is refused, the whole batch is, for the
/// same reason.
proof fn lemma_refund_refused(
    s: BookingLedger,
    passenger: Address,
    now: u64,
    ids: Seq<u64>,
    k: int,
    e: BookingError,
)
    requires
        0 <= k <= ids.len(),
        batch_refund(s, passenger, now, ids.subrange(0, k)) == Err::<
            (BookingLedger, Option<Address>, int),
            _,
        >(e),
    ensures
        batch_refund(s, passenger, now, ids) == Err::<(BookingLedger, Option<Address>, int), _>(e),
    decreases ids.len() - k,
{
    if k == ids.len() {
        assert(ids.subrange(0, k) =~= ids);
    } else {
        let next = ids.subrange(0, k + 1);
        assert(next.drop_last() =~= ids.subrange(0, k));
        lemma_refund_refused(s, passenger, now, ids, k + 1, e);
    }
}

/// The booking store.
pub struct BookingStorage {
    bookings: Vec<Booking>,
    oracle: Option<Address>,
    cache: Vec<CacheEntry>,
}

impl View for BookingStorage {
    type V = BookingLedger;

    closed spec fn view(&self) -> BookingLedger {
        BookingLedger { bookings: self.bookings@, oracle: self.oracle, cache: self.cache@ }
    }
}

pub fn copy_booking(b: &Booking) -> (c: Booking)
    ensures
        c == *b,
{
    Booking {
        booking_id: b.booking_id,
        passenger: b.passenger,
        airline: b.airline,
        flight_number: b.flight_number.clone(),
        from_airport: b.from_airport.clone(),
        to_airport: b.to_airport.clone(),
        departure_time: b.departure_time,
        price: b.price,
        token: b.token,
        amount_escrowed: b.amount_escrowed,
        status: b.status,
        created_at: b.created_at,
    }
}

impl BookingStorage {
    pub fn new() -> (r: BookingStorage)
        ensures
            r@.bookings.len() == 0,
            r@.oracle is None,
            r@.cache.len() == 0,
    {
        BookingStorage { bookings: Vec::new(), oracle: None, cache: Vec::new() }
    }

    pub fn get(&self, booking_id: u64) -> (r: Option<Booking>)
        ensures
            r == self@.booking(booking_id),
    {
        let ghost p = of_booking(booking_id);
        let mut found: Option<usize> = None;
        let mut i: usize = 0;
        while i < self.bookings.len()
            invariant
                i <= self.bookings@.len(),
                p == of_booking(booking_id),
                found is None ==> last_of(self.bookings@.subrange(0, i as int), p) is None,
                found is Some ==> found.unwrap() < i && last_of(
                    self.bookings@.subrange(0, i as int),
                    p,
                ) == Some(self.bookings@[found.unwrap() as int]),
            decreases self.bookings@.len() - i,
        {
            proof {
                lemma_filter_prefix_step(self.bookings@, p, i as int);
            }
            if self.bookings[i].booking_id == booking_id {
                found = Some(i);
            }
            i = i + 1;
        }
        proof {
            assert(self.bookings@.subrange(0, i as int) =~= self.bookings@);
        }
        match found {
            None => None,
            Some(k) => Some(copy_booking(&self.bookings[k])),
        }
    }

    pub fn set(&mut self, booking: Booking)
        ensures
            final(self)@ == old(self)@.with_booking(booking),
    {
        self.bookings.push(booking);
    }

    pub fn get_cached_balance(&self, token: Address, account: Address) -> (r: Option<CachedBalance>)
        ensures
            r == self@.cached(token, account),
    {
        let ghost p = of_cache(token, account);
        let mut found: Option<CacheEntry> = None;
        let mut i: usize = 0;
        while i < self.cache.len()
            invariant
                i <= self.cache@.len(),
                p == of_cache(token, account),
                found == last_of(self.cache@.subrange(0, i as int), p),
            decreases self.cache@.len() - i,
        {
            proof {
                lemma_filter_prefix_step(self.cache@, p, i as int);
            }
            let e = self.cache[i];
            if e.token == token && e.account == account {
                found = Some(e);
            }
            i = i + 1;
        }
        proof {
            assert(self.cache@.subrange(0, i as int) =~= self.cache@);
        }
        match found {
            Some(e) => e.cached,
            None => None,
        }
    }

    pub fn set_cached_balance(&mut self, token: Address, account: Address, value: CachedBalance)
        ensures
            final(self)@ == (BookingLedger {
                cache: old(self)@.cache.push(CacheEntry { token, account, cached: Some(value) }),
                ..old(self)@
            }),
    {
        self.cache.push(CacheEntry { token, account, cached: Some(value) });
    }

    /// Drops the cached balances of both sides of a transfer.
    fn invalidate(&mut self, token: Address, from: Address, to: Address)
        ensures
            final(self)@ == old(self)@.invalidated(token, from, to),
    {
        self.cache.push(CacheEntry { token, account: from, cached: None });
        self.cache.push(CacheEntry { token, account: to, cached: None });
    }
}

/// The booking escrow's operations. `this` is the escrow contract's own
/// address; an operation that moves tokens returns the transfer, which the
/// host makes for the operation to take effect.
pub struct BookingContract;

impl BookingContract {
    /// The booking oracle is named once.
    pub fn initialize_oracle(store: &mut BookingStorage, oracle: Address) -> (r: Result<
        (),
        BookingError,
    >)
        ensures
            old(store)@.oracle is Some ==> r == Err::<(), _>(BookingError::OracleAlreadyConfigured)
                && final(store)@ == old(store)@,
            old(store)@.oracle is None ==> r is Ok && final(store)@ == (BookingLedger {
                oracle: Some(oracle),
                ..old(store)@
            }),
    {
        if store.oracle.is_some() {
            return Err(BookingError::OracleAlreadyConfigured);
        }
        store.oracle = Some(oracle);
        Ok(())
    }

    /// Opens a pending booking; its id is the ledger time.
    pub fn create_booking(
        store: &mut BookingStorage,
        now: u64,
        passenger: Address,
        airline: Address,
        flight_number: String,
        from_airport: String,
        to_airport: String,
        departure_time: u64,
        price: i128,
        token: Address,
    ) -> (r: u64)
        ensures
            r == now,
            final(store)@ == old(store)@.with_booking(
                Booking {
                    booking_id: now,
                    passenger,
                    airline,
                    flight_number,
                    from_airport,
                    to_airport,
                    departure_time,
                    price,
                    token,
                    amount_escrowed: 0,
                    status: BookingStatus::Pending,
                    created_at: now,
                },
            ),
    {
        store.set(
            Booking {
                booking_id: now,
                passenger,
                airline,
                flight_number,
                from_airport,
                to_airport,
                departure_time,
                price,
                token,
                amount_escrowed: 0,
                status: BookingStatus::Pending,
                created_at: now,
            },
        );
        now
    }

    /// The passenger pays a pending booking into escrow.
    pub fn pay_for_booking(store: &mut BookingStorage, this: Address, booking_id: u64) -> (r: Result<
        TokenTransfer,
        BookingError,
    >)
        ensures
            match old(store)@.booking(booking_id) {
                None => r == Err::<TokenTransfer, _>(BookingError::BookingNotFound) && final(store)@
                    == old(store)@,
                Some(b) => if b.status != BookingStatus::Pending {
                    r == Err::<TokenTransfer, _>(BookingError::AlreadyPaidOrCancelled)
                        && final(store)@ == old(store)@
                } else {
                    &&& r == Ok::<_, BookingError>(
                        TokenTransfer { token: b.token, from: b.passenger, to: this, amount: b.price },
                    )
                    &&& final(store)@ == old(store)@.with_booking(
                        Booking {
                            amount_escrowed: b.price,
                            status: BookingStatus::Confirmed,
                            ..b
                        },
                    ).invalidated(b.token, b.passenger, this)
                },
            },
    {
        let mut booking = match store.get(booking_id) {
            None => return Err(BookingError::BookingNotFound),
            Some(b) => b,
        };
        if booking.status != BookingStatus::Pending {
            return Err(BookingError::AlreadyPaidOrCancelled);
        }
        let transfer = TokenTransfer {
            token: booking.token,
            from: booking.passenger,
            to: this,
            amount: booking.price,
        };
        booking.amount_escrowed = booking.price;
        booking.status = BookingStatus::Confirmed;
        store.set(booking);
        store.invalidate(transfer.token, transfer.from, transfer.to);
        Ok(transfer)
    }

    fn release(store: &mut BookingStorage, this: Address, booking_id: u64, invalidate: bool) -> (r:
        Result<TokenTransfer, BookingError>)
        ensures
            match old(store)@.booking(booking_id) {
                None => r == Err::<TokenTransfer, _>(BookingError::BookingNotFound) && final(store)@
                    == old(store)@,
                Some(b) => if b.status != BookingStatus::Confirmed {
                    r == Err::<TokenTransfer, _>(BookingError::InvalidBookingStatus)
                        && final(store)@ == old(store)@
                } else if b.amount_escrowed <= 0 {
                    r == Err::<TokenTransfer, _>(BookingError::NoFundsInEscrow) && final(store)@
                        == old(store)@
                } else {
                    let s1 = old(store)@.with_booking(
                        Booking { amount_escrowed: 0, status: BookingStatus::Completed, ..b },
                    );
                    &&& r == Ok::<_, BookingError>(
                        TokenTransfer {
                            token: b.token,
                            from: this,
                            to: b.airline,
                            amount: b.amount_escrowed,
                        },
                    )
                    &&& final(store)@ == if invalidate {
                        s1.invalidated(b.token, this, b.airline)
                    } else {
                        s1
                    }
                },
            },
    {
        let mut booking = match store.get(booking_id) {
            None => return Err(BookingError::BookingNotFound),
            Some(b) => b,
        };
        if booking.status != BookingStatus::Confirmed {
            return Err(BookingError::InvalidBookingStatus);
        }
        if booking.amount_escrowed <= 0 {
            return Err(BookingError::NoFundsInEscrow);
        }
        let transfer = TokenTransfer {
            token: booking.token,
            from: this,
            to: booking.airline,
            amount: booking.amount_escrowed,
        };
        booking.amount_escrowed = 0;
        booking.status = BookingStatus::Completed;
        store.set(booking);
        if invalidate {
            store.invalidate(transfer.token, transfer.from, transfer.to);
        }
        Ok(transfer)
    }

    /// After the flight, the airline's escrowed payment is released to it.
    pub fn release_payment_to_airline(store: &mut BookingStorage, this: Address, booking_id: u64) -> (r:
        Result<TokenTransfer, BookingError>)
        ensures
            match old(store)@.booking(booking_id) {
                None => r == Err::<TokenTransfer, _>(BookingError::BookingNotFound) && final(store)@
                    == old(store)@,
                Some(b) => if b.status != BookingStatus::Confirmed {
                    r == Err::<TokenTransfer, _>(BookingError::InvalidBookingStatus)
                        && final(store)@ == old(store)@
                } else if b.amount_escrowed <= 0 {
                    r == Err::<TokenTransfer, _>(BookingError::NoFundsInEscrow) && final(store)@
                        == old(store)@
                } else {
                    &&& r == Ok::<_, BookingError>(
                        TokenTransfer {
                            token: b.token,
                            from: this,
                            to: b.airline,
                            amount: b.amount_escrowed,
                        },
                    )
                    &&& final(store)@ == old(store)@.with_booking(
                        Booking { amount_escrowed: 0, status: BookingStatus::Completed, ..b },
                    ).invalidated(b.token, this, b.airline)
                },
            },
    {
        Self::release(store, this, booking_id, true)
    }

    /// The configured oracle releases a booking's escrow to the airline.
    pub fn oracle_release_payment(store: &mut BookingStorage, this: Address, oracle: Address, booking_id: u64) -> (r:
        Result<TokenTransfer, BookingError>)
        ensures
            match old(store)@.oracle {
                None => r == Err::<TokenTransfer, _>(BookingError::OracleNotConfigured) && final(
                    store)@ == old(store)@,
                Some(o) => if o != oracle {
                    r == Err::<TokenTransfer, _>(BookingError::Unauthorized) && final(store)@
                        == old(store)@
                } else {
                    match old(store)@.booking(booking_id) {
                        None => r == Err::<TokenTransfer, _>(BookingError::BookingNotFound) && final(
                            store)@ == old(store)@,
                        Some(b) => if b.status != BookingStatus::Confirmed {
                            r == Err::<TokenTransfer, _>(BookingError::InvalidBookingStatus)
                                && final(store)@ == old(store)@
                        } else if b.amount_escrowed <= 0 {
                            r == Err::<TokenTransfer, _>(BookingError::NoFundsInEscrow) && final(
                                store)@ == old(store)@
                        } else {
                            &&& r == Ok::<_, BookingError>(
                                TokenTransfer {
                                    token: b.token,
                                    from: this,
                                    to: b.airline,
                                    amount: b.amount_escrowed,
                                },
                            )
                            &&& final(store)@ == old(store)@.with_booking(
                                Booking {
                                    amount_escrowed: 0,
                                    status: BookingStatus::Completed,
                                    ..b
                                },
                            )
                        },
                    }
                },
            },
    {
        match store.oracle {
            None => return Err(BookingError::OracleNotConfigured),
            Some(o) => {
                if o != oracle {
                    return Err(BookingError::Unauthorized);
                }
            },
        }
        Self::release(store, this, booking_id, false)
    }

    /// The passenger cancels a pending or confirmed booking more than a day
    /// before departure; any escrow goes back to them.
    pub fn refund_passenger(store: &mut BookingStorage, this: Address, now: u64, booking_id: u64) -> (r:
        Result<Option<TokenTransfer>, BookingError>)
        ensures
            match old(store)@.booking(booking_id) {
                None => r == Err::<Option<TokenTransfer>, _>(BookingError::BookingNotFound) && final(
                    store)@ == old(store)@,
                Some(b) => if now + CANCELLATION_NOTICE_SECS >= b.departure_time {
                    r == Err::<Option<TokenTransfer>, _>(BookingError::CancellationWindowClosed)
                        && final(store)@ == old(store)@
                } else if !refundable(b) {
                    r == Err::<Option<TokenTransfer>, _>(BookingError::CannotBeRefunded) && final(
                        store)@ == old(store)@
                } else {
                    &&& r == Ok::<_, BookingError>(
                        if b.amount_escrowed > 0 {
                            Some(
                                TokenTransfer {
                                    token: b.token,
                                    from: this,
                                    to: b.passenger,
                                    amount: b.amount_escrowed,
                                },
                            )
                        } else {
                            None
                        },
                    )
                    &&& final(store)@ == old(store)@.with_booking(
                        Booking { amount_escrowed: 0, status: BookingStatus::Refunded, ..b },
                    )
                },
            },
    {
        let mut booking = match store.get(booking_id) {
            None => return Err(BookingError::BookingNotFound),
            Some(b) => b,
        };
        if now as u128 + CANCELLATION_NOTICE_SECS as u128 >= booking.departure_time as u128 {
            return Err(BookingError::CancellationWindowClosed);
        }
        if booking.status != BookingStatus::Confirmed && booking.status != BookingStatus::Pending {
            return Err(BookingError::CannotBeRefunded);
        }
        let transfer = if booking.amount_escrowed > 0 {
            Some(
                TokenTransfer {
                    token: booking.token,
                    from: this,
                    to: booking.passenger,
                    amount: booking.amount_escrowed,
                },
            )
        } else {
            None
        };
        booking.amount_escrowed = 0;
        booking.status = BookingStatus::Refunded;
        store.set(booking);
        Ok(transfer)
    }

    /// The configured oracle refunds a booking whose flight the airline
    /// cancelled, whatever the time.
    pub fn oracle_refund_airline_cancel(store: &mut BookingStorage, this: Address, oracle: Address, booking_id: u64) -> (r:
        Result<Option<TokenTransfer>, BookingError>)
        ensures
            match old(store)@.oracle {
                None => r == Err::<Option<TokenTransfer>, _>(BookingError::OracleNotConfigured)
                    && final(store)@ == old(store)@,
                Some(o) => if o != oracle {
                    r == Err::<Option<TokenTransfer>, _>(BookingError::Unauthorized) && final(
                        store)@ == old(store)@
                } else {
                    match old(store)@.booking(booking_id) {
                        None => r == Err::<Option<TokenTransfer>, _>(BookingError::BookingNotFound)
                            && final(store)@ == old(store)@,
                        Some(b) => if !refundable(b) {
                            r == Err::<Option<TokenTransfer>, _>(BookingError::CannotBeRefunded)
                                && final(store)@ == old(store)@
                        } else {
                            let s1 = old(store)@.with_booking(
                                Booking { amount_escrowed: 0, status: BookingStatus::Refunded, ..b },
                            );
                            if b.amount_escrowed > 0 {
                                &&& r == Ok::<_, BookingError>(
                                    Some(
                                        TokenTransfer {
                                            token: b.token,
                                            from: this,
                                            to: b.passenger,
                                            amount: b.amount_escrowed,
                                        },
                                    ),
                                )
                                &&& final(store)@ == s1.invalidated(b.token, this, b.passenger)
                            } else {
                                r == Ok::<_, BookingError>(None::<TokenTransfer>) && final(store)@ == s1
                            }
                        },
                    }
                },
            },
    {
        match store.oracle {
            None => return Err(BookingError::OracleNotConfigured),
            Some(o) => {
                if o != oracle {
                    return Err(BookingError::Unauthorized);
                }
            },
        }
        let mut booking = match store.get(booking_id) {
            None => return Err(BookingError::BookingNotFound),
            Some(b) => b,
        };
        if booking.status != BookingStatus::Confirmed && booking.status != BookingStatus::Pending {
            return Err(BookingError::CannotBeRefunded);
        }
        let escrowed = booking.amount_escrowed;
        let token = booking.token;
        let passenger = booking.passenger;
        booking.amount_escrowed = 0;
        booking.status = BookingStatus::Refunded;
        store.set(booking);
        if escrowed > 0 {
            store.invalidate(token, this, passenger);
            Ok(Some(TokenTransfer { token, from: this, to: passenger, amount: escrowed }))
        } else {
            Ok(None)
        }
    }

    pub fn get_booking(store: &BookingStorage, booking_id: u64) -> (r: Option<Booking>)
        ensures
            r == store@.booking(booking_id),
    {
        store.get(booking_id)
    }

    /// A cached balance that is still fresh at `now`; `None` means the host
    /// must ask the token contract and record the answer.
    pub fn get_token_balance_cached(store: &BookingStorage, now: u64, token: Address, account: Address) -> (r:
        Option<i128>)
        ensures
            r == match store@.cached(token, account) {
                Some(c) => if now - c.cached_at <= BALANCE_CACHE_TTL_SECS {
                    Some(c.amount)
                } else {
                    None
                },
                None => None,
            },
    {
        match store.get_cached_balance(token, account) {
            Some(c) => {
                if now <= c.cached_at || now - c.cached_at <= BALANCE_CACHE_TTL_SECS {
                    Some(c.amount)
                } else {
                    None
                }
            },
            None => None,
        }
    }

    /// Records a balance that the token contract reported at `now`.
    pub fn cache_token_balance(store: &mut BookingStorage, now: u64, token: Address, account: Address, amount: i128)
        ensures
            final(store)@ == (BookingLedger {
                cache: old(store)@.cache.push(
                    CacheEntry { token, account, cached: Some(CachedBalance { amount, cached_at: now }) },
                ),
                ..old(store)@
            }),
    {
        store.set_cached_balance(token, account, CachedBalance { amount, cached_at: now });
    }

    /// Releases the escrow of several of an airline's bookings, all in one
    /// token, as one transfer; any refused booking refuses the batch.
    pub fn batch_release_payments(store: &mut BookingStorage, this: Address, airline: Address, booking_ids: Vec<u64>) -> (r:
        Result<TokenTransfer, BookingError>)
        ensures
            booking_ids@.len() == 0 ==> r == Err::<TokenTransfer, _>(BookingError::NoBookings)
                && final(store)@ == old(store)@,
            booking_ids@.len() > 0 ==> match batch_release(old(store)@, airline, booking_ids@) {
                Err(e) => r == Err::<TokenTransfer, _>(e) && final(store)@ == old(store)@,
                Ok((s1, token, total)) => {
                    &&& r == Ok::<_, BookingError>(
                        TokenTransfer {
                            token: token.unwrap(),
                            from: this,
                            to: airline,
                            amount: total as i128,
                        },
                    )
                    &&& final(store)@ == s1.invalidated(token.unwrap(), this, airline)
                },
            },
    {
        if booking_ids.len() == 0 {
            return Err(BookingError::NoBookings);
        }
        let ghost s = store@;
        let len0 = store.bookings.len();
        let mut token: Option<Address> = None;
        let mut total: i128 = 0;
        let mut i: usize = 0;
        while i < booking_ids.len()
            invariant
                i <= booking_ids@.len(),
                s == old(store)@,
                len0 == s.bookings.len(),
                batch_release(s, airline, booking_ids@.subrange(0, i as int)) == Ok::<
                    (BookingLedger, Option<Address>, int),
                    BookingError,
                >((store@, token, total as int)),
                store@.bookings.len() >= len0,
                store@.bookings.subrange(0, len0 as int) == s.bookings,
                store@.oracle == s.oracle,
                store@.cache == s.cache,
                i > 0 ==> token is Some,
            decreases booking_ids@.len() - i,
        {
            let ghost pre = booking_ids@.subrange(0, i as int);
            let ghost post = booking_ids@.subrange(0, i + 1);
            proof {
                assert(post.drop_last() =~= pre);
                assert(post.last() == booking_ids@[i as int]);
            }
            let id = booking_ids[i];
            let failed: Option<BookingError> = match store.get(id) {
                None => Some(BookingError::BookingNotFound),
                Some(mut b) => {
                    if b.airline != airline {
                        Some(BookingError::Unauthorized)
                    } else if b.status != BookingStatus::Confirmed {
                        Some(BookingError::InvalidBookingStatus)
                    } else if b.amount_escrowed <= 0 {
                        Some(BookingError::NoFundsInEscrow)
                    } else if token.is_some() && token.unwrap() != b.token {
                        Some(BookingError::MixedTokens)
                    } else {
                        match total.checked_add(b.amount_escrowed) {
                            None => Some(BookingError::MathOverflow),
                            Some(t) => {
                                total = t;
                                token = Some(b.token);
                                b.amount_escrowed = 0;
                                b.status = BookingStatus::Completed;
                                store.set(b);
                                proof {
                                    assert(store@.bookings.subrange(0, len0 as int)
                                        =~= s.bookings);
                                }
                                None
                            },
                        }
                    }
                },
            };
            match failed {
                Some(e) => {
                    proof {
                        assert(batch_release(s, airline, post) == Err::<
                            (BookingLedger, Option<Address>, int),
                            _,
                        >(e));
                        lemma_release_refused(s, airline, booking_ids@, i + 1, e);
                    }
                    store.bookings.truncate(len0);
                    proof {
                        assert(store@.bookings =~= s.bookings);
                    }
                    return Err(e);
                },
                None => {},
            }
            i = i + 1;
        }
        proof {
            assert(booking_ids@.subrange(0, i as int) =~= booking_ids@);
        }
        let t = token.unwrap();
        store.invalidate(t, this, airline);
        Ok(TokenTransfer { token: t, from: this, to: airline, amount: total })
    }

    /// Refunds several of a passenger's bookings, all in one token, as one
    /// transfer (none where nothing was escrowed); any refused booking
    /// refuses the batch. Returns the total refunded and the transfer.
    pub fn batch_refund_passenger(
        store: &mut BookingStorage,
        this: Address,
        now: u64,
        passenger: Address,
        booking_ids: Vec<u64>,
    ) -> (r: Result<(i128, Option<TokenTransfer>), BookingError>)
        ensures
            booking_ids@.len() == 0 ==> r == Err::<(i128, Option<TokenTransfer>), _>(
                BookingError::NoBookings,
            ) && final(store)@ == old(store)@,
            booking_ids@.len() > 0 ==> match batch_refund(old(store)@, passenger, now, booking_ids@) {
                Err(e) => r == Err::<(i128, Option<TokenTransfer>), _>(e) && final(store)@ == old(
                    store)@,
                Ok((s1, token, total)) => if total > 0 {
                    &&& r == Ok::<_, BookingError>(
                        (
                            total as i128,
                            Some(
                                TokenTransfer {
                                    token: token.unwrap(),
                                    from: this,
                                    to: passenger,
                                    amount: total as i128,
                                },
                            ),
                        ),
                    )
                    &&& final(store)@ == s1.invalidated(token.unwrap(), this, passenger)
                } else {
                    r == Ok::<_, BookingError>((total as i128, None::<TokenTransfer>)) && final(store)@ == s1
                },
            },
    {
        if booking_ids.len() == 0 {
            return Err(BookingError::NoBookings);
        }
        let ghost s = store@;
        let len0 = store.bookings.len();
        let mut token: Option<Address> = None;
        let mut total: i128 = 0;
        let mut i: usize = 0;
        while i < booking_ids.len()
            invariant
                i <= booking_ids@.len(),
                s == old(store)@,
                len0 == s.bookings.len(),
                batch_refund(s, passenger, now, booking_ids@.subrange(0, i as int)) == Ok::<
                    (BookingLedger, Option<Address>, int),
                    BookingError,
                >((store@, token, total as int)),
                store@.bookings.len() >= len0,
                store@.bookings.subrange(0, len0 as int) == s.bookings,
                store@.oracle == s.oracle,
                store@.cache == s.cache,
                i > 0 ==> token is Some,
            decreases booking_ids@.len() - i,
        {
            let ghost pre = booking_ids@.subrange(0, i as int);
            let ghost post = booking_ids@.subrange(0, i + 1);
            proof {
                assert(post.drop_last() =~= pre);
                assert(post.last() == booking_ids@[i as int]);
            }
            let id = booking_ids[i];
            let failed: Option<BookingError> = match store.get(id) {
                None => Some(BookingError::BookingNotFound),
                Some(mut b) => {
                    if b.passenger != passenger {
                        Some(BookingError::Unauthorized)
                    } else if now as u128 + CANCELLATION_NOTICE_SECS as u128
                        >= b.departure_time as u128 {
                        Some(BookingError::CancellationWindowClosed)
                    } else if b.status != BookingStatus::Confirmed && b.status
                        != BookingStatus::Pending {
                        Some(BookingError::CannotBeRefunded)
                    } else if token.is_some() && token.unwrap() != b.token {
                        Some(BookingError::MixedTokens)
                    } else {
                        match total.checked_add(b.amount_escrowed) {
                            None => Some(BookingError::MathOverflow),
                            Some(t) => {
                                total = t;
                                token = Some(b.token);
                                b.amount_escrowed = 0;
                                b.status = BookingStatus::Refunded;
                                store.set(b);
                                proof {
                                    assert(store@.bookings.subrange(0, len0 as int)
                                        =~= s.bookings);
                                }
                                None
                            },
                        }
                    }
                },
            };
            match failed {
                Some(e) => {
                    proof {
                        assert(batch_refund(s, passenger, now, post) == Err::<
                            (BookingLedger, Option<Address>, int),
                            _,
                        >(e));
                        lemma_refund_refused(s, passenger, now, booking_ids@, i + 1, e);
                    }
                    store.bookings.truncate(len0);
                    proof {
                        assert(store@.bookings =~= s.bookings);
                    }
                    return Err(e);
                },
                None => {},
            }
            i = i + 1;
        }
        proof {
            assert(booking_ids@.subrange(0, i as int) =~= booking_ids@);
        }
        if total > 0 {
            let t = token.unwrap();
            store.invalidate(t, this, passenger);
            Ok((total, Some(TokenTransfer { token: t, from: this, to: passenger, amount: total })))
        } else {
            Ok((total, None))
        }
    }

    /// The passenger's cancellation: a refund under the cancellation rules.
    pub fn cancel_booking(store: &mut BookingStorage, this: Address, now: u64, _passenger: Address, booking_id: u64) -> (r:
        Result<Option<TokenTransfer>, BookingError>)
        ensures
            match old(store)@.booking(booking_id) {
                None => r == Err::<Option<TokenTransfer>, _>(BookingError::BookingNotFound) && final(
                    store)@ == old(store)@,
                Some(b) => if now + CANCELLATION_NOTICE_SECS >= b.departure_time {
                    r == Err::<Option<TokenTransfer>, _>(BookingError::CancellationWindowClosed)
                        && final(store)@ == old(store)@
                } else if !refundable(b) {
                    r == Err::<Option<TokenTransfer>, _>(BookingError::CannotBeRefunded) && final(
                        store)@ == old(store)@
                } else {
                    final(store)@ == old(store)@.with_booking(
                        Booking { amount_escrowed: 0, status: BookingStatus::Refunded, ..b },
                    ) && r is Ok
                },
            },
    {
        Self::refund_passenger(store, this, now, booking_id)
    }

    /// The airline's completion: the escrow is released to it.
    pub fn complete_booking(store: &mut BookingStorage, this: Address, _airline: Address, booking_id: u64) -> (r:
        Result<TokenTransfer, BookingError>)
        ensures
            match old(store)@.booking(booking_id) {
                None => r == Err::<TokenTransfer, _>(BookingError::BookingNotFound) && final(store)@
                    == old(store)@,
                Some(b) => if b.status != BookingStatus::Confirmed {
                    r == Err::<TokenTransfer, _>(BookingError::InvalidBookingStatus)
                        && final(store)@ == old(store)@
                } else if b.amount_escrowed <= 0 {
                    r == Err::<TokenTransfer, _>(BookingError::NoFundsInEscrow) && final(store)@
                        == old(store)@
                } else {
                    r == Ok::<_, BookingError>(
                        TokenTransfer {
                            token: b.token,
                            from: this,
                            to: b.airline,
                            amount: b.amount_escrowed,
                        },
                    ) && final(store)@ == old(store)@.with_booking(
                        Booking { amount_escrowed: 0, status: BookingStatus::Completed, ..b },
                    ).invalidated(b.token, this, b.airline)
                },
            },
    {
        Self::release_payment_to_airline(store, this, booking_id)
    }
}

} // verus!
