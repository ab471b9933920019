use vstd::prelude::*;

use crate::address::Address;
use crate::dispute::trunc_div;
use crate::seqs::{last_of, lemma_filter_prefix_step, lemma_filter_push};

verus! {

/// Loyalty tiers, from the lowest.
#[derive(Clone, Copy, Debug, PartialEq, Eq, Structural)]
pub enum Tier {
    Bronze,
    Silver,
    Gold,
    Platinum,
}

#[derive(Clone, Copy, Debug, PartialEq, Eq, Structural)]
pub enum LoyaltyError {
    TierConfigNotFound,
    AccountNotFound,
    InsufficientPoints,
    InvalidPoints,
    MathOverflow,
}

#[derive(Clone, Copy, Debug, PartialEq, Eq, Structural)]
pub struct LoyaltyAccount {
    pub user: Address,
    pub tier: Tier,
    pub total_points: i128,
    pub lifetime_bookings: u64,
    pub lifetime_spent: i128,
    pub tier_updated_at: u64,
}

/// What a tier asks for and what it gives.
#[derive(Clone, Copy, Debug, PartialEq, Eq, Structural)]
pub struct TierConfig {
    pub tier: Tier,
    pub min_points: i128,
    pub min_bookings: u64,
    /// Points per unit spent, in hundredths (100 is one point per unit).
    pub points_multiplier: u32,
    /// Basis points.
    pub bonus_percentage: u32,
}

/// The records of the loyalty module; a later record under the same key wins.
pub struct LoyaltyLedger {
    pub accounts: Seq<LoyaltyAccount>,
    pub tiers: Seq<TierConfig>,
}

pub open spec fn of_account(user: Address) -> spec_fn(LoyaltyAccount) -> bool {
    |a: LoyaltyAccount| a.user == user
}

pub open spec fn of_tier(tier: Tier) -> spec_fn(TierConfig) -> bool {
    |c: TierConfig| c.tier == tier
}

impl LoyaltyLedger {
    pub open spec fn account(self, user: Address) -> Option<LoyaltyAccount> {
        last_of(self.accounts, of_account(user))
    }

    pub open spec fn tier_config(self, tier: Tier) -> Option<TierConfig> {
        last_of(self.tiers, of_tier(tier))
    }
}

/// The tier table that `initialize_tiers` installs.
pub open spec fn standard_tier(tier: Tier) -> TierConfig {
    match tier {
        Tier::Bronze => TierConfig {
            tier,
            min_points: 0,
            min_bookings: 0,
            points_multiplier: 100,
            bonus_percentage: 0,
        },
        Tier::Silver => TierConfig {
            tier,
            min_points: 1000,
            min_bookings: 5,
            points_multiplier: 125,
            bonus_percentage: 500,
        },
        Tier::Gold => TierConfig {
            tier,
            min_points: 5000,
            min_bookings: 20,
            points_multiplier: 150,
            bonus_percentage: 1000,
        },
        Tier::Platinum => TierConfig {
            tier,
            min_points: 20000,
            min_bookings: 50,
            points_multiplier: 200,
            bonus_percentage: 2000,
        },
    }
}

/// The order in which an account's tier is looked for, from the highest.
pub open spec fn upgrade_order() -> Seq<Tier> {
    seq![Tier::Platinum, Tier::Gold, Tier::Silver, Tier::Bronze]
}

/// The account moved to the first tier of `order` whose thresholds it meets;
/// an error where a tier looked at has no configuration.
pub open spec fn tier_scan(s: LoyaltyLedger, a: LoyaltyAccount, now: u64, order: Seq<Tier>) -> Result<
    LoyaltyAccount,
    LoyaltyError,
>
    decreases order.len(),
{
    if order.len() == 0 {
        Ok(a)
    } else {
        match s.tier_config(order[0]) {
            None => Err(LoyaltyError::TierConfigNotFound),
            Some(c) => if a.total_points >= c.min_points && a.lifetime_bookings >= c.min_bookings {
                if a.tier != order[0] {
                    Ok(LoyaltyAccount { tier: order[0], tier_updated_at: now, ..a })
                } else {
                    Ok(a)
                }
            } else {
                tier_scan(s, a, now, order.subrange(1, order.len() as int))
            },
        }
    }
}

/// A new account: bronze, with nothing earned.
pub open spec fn fresh_account(user: Address, now: u64) -> LoyaltyAccount {
    LoyaltyAccount {
        user,
        tier: Tier::Bronze,
        total_points: 0,
        lifetime_bookings: 0,
        lifetime_spent: 0,
        tier_updated_at: now,
    }
}

/// The keyed store of the loyalty module.
pub struct LoyaltyStorageKey {
    accounts: Vec<LoyaltyAccount>,
    tiers: Vec<TierConfig>,
}

impl View for LoyaltyStorageKey {
    type V = LoyaltyLedger;

    closed spec fn view(&self) -> LoyaltyLedger {
        LoyaltyLedger { accounts: self.accounts@, tiers: self.tiers@ }
    }
}

impl LoyaltyStorageKey {
    pub fn new() -> (r: LoyaltyStorageKey)
        ensures
            r@.accounts.len() == 0,
            r@.tiers.len() == 0,
    {
        LoyaltyStorageKey { accounts: Vec::new(), tiers: Vec::new() }
    }

    pub fn get_account(&self, user: Address) -> (r: Option<LoyaltyAccount>)
        ensures
            r == self@.account(user),
    {
        let ghost p = of_account(user);
        let mut found: Option<LoyaltyAccount> = None;
        let mut i: usize = 0;
        while i < self.accounts.len()
            invariant
                i <= self.accounts@.len(),
                p == of_account(user),
                found == last_of(self.accounts@.subrange(0, i as int), p),
            decreases self.accounts@.len() - i,
        {
            proof {
                lemma_filter_prefix_step(self.accounts@, p, i as int);
            }
            let a = self.accounts[i];
            if a.user == user {
                found = Some(a);
            }
            i = i + 1;
        }
        proof {
            assert(self.accounts@.subrange(0, i as int) =~= self.accounts@);
        }
        found
    }

    pub fn set_account(&mut self, account: LoyaltyAccount)
        ensures
            final(self)@ == (LoyaltyLedger {
                accounts: old(self)@.accounts.push(account),
                ..old(self)@
            }),
            final(self)@.account(account.user) == Some(account),
    {
        proof {
            lemma_filter_push(self.accounts@, account, of_account(account.user));
        }
        self.accounts.push(account);
    }

    pub fn get_tier_config(&self, tier: Tier) -> (r: Option<TierConfig>)
        ensures
            r == self@.tier_config(tier),
    {
        let ghost p = of_tier(tier);
        let mut found: Option<TierConfig> = None;
        let mut i: usize = 0;
        while i < self.tiers.len()
            invariant
                i <= self.tiers@.len(),
                p == of_tier(tier),
                found == last_of(self.tiers@.subrange(0, i as int), p),
            decreases self.tiers@.len() - i,
        {
            proof {
                lemma_filter_prefix_step(self.tiers@, p, i as int);
            }
            let c = self.tiers[i];
            if c.tier == tier {
                found = Some(c);
            }
            i = i + 1;
        }
        proof {
            assert(self.tiers@.subrange(0, i as int) =~= self.tiers@);
        }
        found
    }

    pub fn set_tier_config(&mut self, config: TierConfig)
        ensures
            final(self)@ == (LoyaltyLedger { tiers: old(self)@.tiers.push(config), ..old(self)@ }),
    {
        self.tiers.push(config);
    }
}

fn standard_config(tier: Tier) -> (r: TierConfig)
    ensures
        r == standard_tier(tier),
{
    match tier {
        Tier::Bronze => TierConfig {
            tier,
            min_points: 0,
            min_bookings: 0,
            points_multiplier: 100,
            bonus_percentage: 0,
        },
        Tier::Silver => TierConfig {
            tier,
            min_points: 1000,
            min_bookings: 5,
            points_multiplier: 125,
            bonus_percentage: 500,
        },
        Tier::Gold => TierConfig {
            tier,
            min_points: 5000,
            min_bookings: 20,
            points_multiplier: 150,
            bonus_percentage: 1000,
        },
        Tier::Platinum => TierConfig {
            tier,
            min_points: 20000,
            min_bookings: 50,
            points_multiplier: 200,
            bonus_percentage: 2000,
        },
    }
}

fn nth_in_upgrade_order(i: usize) -> (r: Tier)
    requires
        i < 4,
    ensures
        r == upgrade_order()[i as int],
{
    if i == 0 {
        Tier::Platinum
    } else if i == 1 {
        Tier::Gold
    } else if i == 2 {
        Tier::Silver
    } else {
        Tier::Bronze
    }
}

/// Points earned on a booking: the amount times the tier's multiplier, in
/// hundredths, truncated toward zero.
pub open spec fn earned_points(booking_amount: i128, c: TierConfig) -> int {
    trunc_div(booking_amount * c.points_multiplier, 100)
}

/// Why `award_points` refuses, if it does, before the tier check.
pub open spec fn award_error(a: LoyaltyAccount, c: Option<TierConfig>, booking_amount: i128) -> Option<
    LoyaltyError,
> {
    match c {
        None => Some(LoyaltyError::TierConfigNotFound),
        Some(c) => if !(i128::MIN <= booking_amount * c.points_multiplier <= i128::MAX) {
            Some(LoyaltyError::MathOverflow)
        } else if !(i128::MIN <= a.total_points + earned_points(booking_amount, c) <= i128::MAX)
            || a.lifetime_bookings == u64::MAX || !(i128::MIN <= a.lifetime_spent
            + booking_amount <= i128::MAX) {
            Some(LoyaltyError::MathOverflow)
        } else {
            None
        },
    }
}

/// The account after a booking is counted, before the tier check.
pub open spec fn credited(a: LoyaltyAccount, c: TierConfig, booking_amount: i128) -> LoyaltyAccount {
    LoyaltyAccount {
        total_points: (a.total_points + earned_points(booking_amount, c)) as i128,
        lifetime_bookings: (a.lifetime_bookings + 1) as u64,
        lifetime_spent: (a.lifetime_spent + booking_amount) as i128,
        ..a
    }
}

/// The loyalty module's operations.
pub struct LoyaltyContract;

impl LoyaltyContract {
    /// Installs the standard tier table.
    pub fn initialize_tiers(store: &mut LoyaltyStorageKey)
        ensures
            final(store)@.accounts == old(store)@.accounts,
            forall|t: Tier| #[trigger] final(store)@.tier_config(t) == Some(standard_tier(t)),
    {
        let ghost s0 = store@;
        let bronze = standard_config(Tier::Bronze);
        let silver = standard_config(Tier::Silver);
        let gold = standard_config(Tier::Gold);
        let platinum = standard_config(Tier::Platinum);
        store.set_tier_config(bronze);
        store.set_tier_config(silver);
        store.set_tier_config(gold);
        store.set_tier_config(platinum);
        proof {
            assert forall|t: Tier| #[trigger] store@.tier_config(t) == Some(standard_tier(t)) by {
                let p = of_tier(t);
                lemma_filter_push(s0.tiers, bronze, p);
                lemma_filter_push(s0.tiers.push(bronze), silver, p);
                lemma_filter_push(s0.tiers.push(bronze).push(silver), gold, p);
                lemma_filter_push(s0.tiers.push(bronze).push(silver).push(gold), platinum, p);
                assert(store@.tiers == s0.tiers.push(bronze).push(silver).push(gold).push(
                    platinum,
                ));
            }
        }
    }

    /// The user's account, opened as a fresh bronze account if there is none.
    pub fn get_or_create_account(store: &mut LoyaltyStorageKey, now: u64, user: Address) -> (r:
        LoyaltyAccount)
        ensures
            old(store)@.account(user) matches Some(a) ==> r == a && final(store)@ == old(store)@,
            old(store)@.account(user) is None ==> r == fresh_account(user, now) && final(store)@
                == (LoyaltyLedger {
                accounts: old(store)@.accounts.push(fresh_account(user, now)),
                ..old(store)@
            }),
    {
        match store.get_account(user) {
            Some(a) => a,
            None => {
                let account = LoyaltyAccount {
                    user,
                    tier: Tier::Bronze,
                    total_points: 0,
                    lifetime_bookings: 0,
                    lifetime_spent: 0,
                    tier_updated_at: now,
                };
                store.set_account(account);
                account
            },
        }
    }

    /// Moves the account to the highest tier whose thresholds it meets.
    pub fn check_tier_upgrade(store: &LoyaltyStorageKey, now: u64, account: &mut LoyaltyAccount) -> (r:
        Result<(), LoyaltyError>)
        ensures
            match tier_scan(store@, *old(account), now, upgrade_order()) {
                Ok(a) => r is Ok && *final(account) == a,
                Err(e) => r == Err::<(), _>(e),
            },
    {
        let ghost start = *account;
        proof {
            assert(upgrade_order().subrange(0, 4) =~= upgrade_order());
        }
        let mut i: usize = 0;
        while i < 4
            invariant
                i <= 4,
                *account == start,
                start == *old(account),
                tier_scan(store@, start, now, upgrade_order()) == tier_scan(
                    store@,
                    start,
                    now,
                    upgrade_order().subrange(i as int, 4),
                ),
            decreases 4 - i,
        {
            let tier = nth_in_upgrade_order(i);
            let ghost rest = upgrade_order().subrange(i as int, 4);
            proof {
                assert(rest.len() == 4 - i);
                assert(rest[0] == tier);
                assert(rest.subrange(1, rest.len() as int) =~= upgrade_order().subrange(
                    i + 1,
                    4,
                ));
            }
            let config = match store.get_tier_config(tier) {
                None => {
                    assert(tier_scan(store@, start, now, rest) == Err::<LoyaltyAccount, _>(
                        LoyaltyError::TierConfigNotFound,
                    ));
                    return Err(LoyaltyError::TierConfigNotFound);
                },
                Some(c) => c,
            };
            if account.total_points >= config.min_points && account.lifetime_bookings
                >= config.min_bookings {
                if account.tier != tier {
                    account.tier = tier;
                    account.tier_updated_at = now;
                }
                assert(tier_scan(store@, start, now, rest) == Ok::<_, LoyaltyError>(*account));
                return Ok(());
            }
            i = i + 1;
        }
        proof {
            assert(upgrade_order().subrange(4, 4).len() == 0);
        }
        Ok(())
    }

    /// Credits a booking to the user's account, opening it if needed, moves
    /// it to the tier it now qualifies for, and returns the points earned.
    pub fn award_points(
        store: &mut LoyaltyStorageKey,
        now: u64,
        user: Address,
        booking_amount: i128,
        _booking_id: u64,
    ) -> (r: Result<i128, LoyaltyError>)
        ensures
            ({
                let a = match old(store)@.account(user) {
                    Some(a) => a,
                    None => fresh_account(user, now),
                };
                let c = old(store)@.tier_config(a.tier);
                match award_error(a, c, booking_amount) {
                    Some(e) => r == Err::<i128, _>(e) && final(store)@ == old(store)@,
                    None => match tier_scan(
                        old(store)@,
                        credited(a, c.unwrap(), booking_amount),
                        now,
                        upgrade_order(),
                    ) {
                        Err(e) => r == Err::<i128, _>(e) && final(store)@ == old(store)@,
                        Ok(b) => r == Ok::<i128, LoyaltyError>(
                            earned_points(booking_amount, c.unwrap()) as i128,
                        ) && final(store)@ == (LoyaltyLedger {
                            accounts: old(store)@.accounts.push(b),
                            ..old(store)@
                        }),
                    },
                }
            }),
    {
        let mut account = match store.get_account(user) {
            Some(a) => a,
            None => LoyaltyAccount {
                user,
                tier: Tier::Bronze,
                total_points: 0,
                lifetime_bookings: 0,
                lifetime_spent: 0,
                tier_updated_at: now,
            },
        };
        let config = match store.get_tier_config(account.tier) {
            None => return Err(LoyaltyError::TierConfigNotFound),
            Some(c) => c,
        };
        let product = match booking_amount.checked_mul(config.points_multiplier as i128) {
            None => return Err(LoyaltyError::MathOverflow),
            Some(p) => p,
        };
        let earned = match product.checked_div(100) {
            None => return Err(LoyaltyError::MathOverflow),
            Some(e) => e,
        };
        account.total_points = match account.total_points.checked_add(earned) {
            None => return Err(LoyaltyError::MathOverflow),
            Some(t) => t,
        };
        account.lifetime_bookings = match account.lifetime_bookings.checked_add(1) {
            None => return Err(LoyaltyError::MathOverflow),
            Some(b) => b,
        };
        account.lifetime_spent = match account.lifetime_spent.checked_add(booking_amount) {
            None => return Err(LoyaltyError::MathOverflow),
            Some(s) => s,
        };
        match Self::check_tier_upgrade(store, now, &mut account) {
            Err(e) => return Err(e),
            Ok(()) => {},
        }
        store.set_account(account);
        Ok(earned)
    }

    /// Spends points for a discount of one unit per hundred points.
    pub fn redeem_points(store: &mut LoyaltyStorageKey, user: Address, points: i128) -> (r: Result<
        i128,
        LoyaltyError,
    >)
        ensures
            old(store)@.account(user) is None ==> r == Err::<i128, _>(LoyaltyError::AccountNotFound)
                && final(store)@ == old(store)@,
            old(store)@.account(user) matches Some(a) ==> {
                if a.total_points < points {
                    r == Err::<i128, _>(LoyaltyError::InsufficientPoints) && final(store)@
                        == old(store)@
                } else if points <= 0 {
                    r == Err::<i128, _>(LoyaltyError::InvalidPoints) && final(store)@
                        == old(store)@
                } else {
                    &&& r == Ok::<i128, LoyaltyError>((points / 100) as i128)
                    &&& final(store)@ == (LoyaltyLedger {
                        accounts: old(store)@.accounts.push(
                            LoyaltyAccount { total_points: (a.total_points - points) as i128, ..a },
                        ),
                        ..old(store)@
                    })
                }
            },
    {
        let mut account = match store.get_account(user) {
            None => return Err(LoyaltyError::AccountNotFound),
            Some(a) => a,
        };
        if account.total_points < points {
            return Err(LoyaltyError::InsufficientPoints);
        }
        if points <= 0 {
            return Err(LoyaltyError::InvalidPoints);
        }
        let discount = points / 100;
        account.total_points = account.total_points - points;
        store.set_account(account);
        Ok(discount)
    }

    pub fn get_account(store: &LoyaltyStorageKey, user: Address) -> (r: Option<LoyaltyAccount>)
        ensures
            r == store@.account(user),
    {
        store.get_account(user)
    }

    pub fn get_tier_benefits(store: &LoyaltyStorageKey, tier: Tier) -> (r: Option<TierConfig>)
        ensures
            r == store@.tier_config(tier),
    {
        store.get_tier_config(tier)
    }
}

} // verus!
