use vstd::prelude::*;

use crate::address::Address;
use crate::seqs::{last_of, lemma_filter_prefix_step};

verus! {

#[derive(Clone, Copy, Debug, PartialEq, Eq, Structural)]
pub enum TokenError {
    AlreadyInitialized,
    NotInitialized,
    Unauthorized,
    InvalidAmount,
    InsufficientBalance,
    NoAllowance,
    AllowanceExpired,
    InsufficientAllowance,
    MathOverflow,
}

#[derive(Debug)]
pub struct TokenMetadata {
    pub name: String,
    pub symbol: String,
    pub decimals: u32,
    pub total_supply: i128,
}

/// What a spender may still move from an owner's balance, up to a ledger
/// sequence number.
#[derive(Clone, Copy, Debug, PartialEq, Eq, Structural)]
pub struct Allowance {
    pub amount: i128,
    pub expiration_ledger: u32,
}

#[derive(Clone, Copy, Debug, PartialEq, Eq, Structural)]
pub struct BalanceRecord {
    pub account: Address,
    pub amount: i128,
}

#[derive(Clone, Copy, Debug, PartialEq, Eq, Structural)]
pub struct AllowanceRecord {
    pub owner: Address,
    pub spender: Address,
    pub allowance: Allowance,
}

/// The records of the token; a later record under the same key wins.
pub struct TokenLedger {
    pub admin: Option<Address>,
    pub metadata: Option<TokenMetadata>,
    pub balances: Seq<BalanceRecord>,
    pub allowances: Seq<AllowanceRecord>,
}

pub open spec fn of_balance(account: Address) -> spec_fn(BalanceRecord) -> bool {
    |b: BalanceRecord| b.account == account
}

pub open spec fn of_allowance(owner: Address, spender: Address) -> spec_fn(AllowanceRecord) -> bool {
    |a: AllowanceRecord| a.owner == owner && a.spender == spender
}

impl TokenLedger {
    /// An account's balance; an account never credited holds 0.
    pub open spec fn balance(self, account: Address) -> i128 {
        match last_of(self.balances, of_balance(account)) {
            Some(b) => b.amount,
            None => 0,
        }
    }

    pub open spec fn allowance(self, owner: Address, spender: Address) -> Option<Allowance> {
        match last_of(self.allowances, of_allowance(owner, spender)) {
            Some(a) => Some(a.allowance),
            None => None,
        }
    }

    pub open spec fn with_balance(self, account: Address, amount: i128) -> TokenLedger {
        TokenLedger {
            balances: self.balances.push(BalanceRecord { account, amount }),
            ..self
        }
    }

    pub open spec fn with_allowance(
        self,
        owner: Address,
        spender: Address,
        allowance: Allowance,
    ) -> TokenLedger {
        TokenLedger {
            allowances: self.allowances.push(AllowanceRecord { owner, spender, allowance }),
            ..self
        }
    }
}

pub open spec fn fits(x: int) -> bool {
    i128::MIN <= x <= i128::MAX
}

/// The records after `amount` moves from `from` to `to`; the credit reads
/// the balance after the debit, so a transfer to oneself changes nothing.
pub open spec fn moved(s: TokenLedger, from: Address, to: Address, amount: i128) -> TokenLedger {
    let s1 = s.with_balance(from, (s.balance(from) - amount) as i128);
    s1.with_balance(to, (s1.balance(to) + amount) as i128)
}

/// Why a move of `amount` from `from` to `to` fails, if it does.
pub open spec fn move_error(s: TokenLedger, from: Address, to: Address, amount: i128) -> Option<
    TokenError,
> {
    let s1 = s.with_balance(from, (s.balance(from) - amount) as i128);
    if s.balance(from) < amount {
        Some(TokenError::InsufficientBalance)
    } else if !fits(s.balance(from) - amount) || !fits(s1.balance(to) + amount) {
        Some(TokenError::MathOverflow)
    } else {
        None
    }
}

/// The token's keyed store.
pub struct TokenStorage {
    admin: Option<Address>,
    metadata: Option<TokenMetadata>,
    balances: Vec<BalanceRecord>,
    allowances: Vec<AllowanceRecord>,
}

impl View for TokenStorage {
    type V = TokenLedger;

    closed spec fn view(&self) -> TokenLedger {
        TokenLedger {
            admin: self.admin,
            metadata: self.metadata,
            balances: self.balances@,
            allowances: self.allowances@,
        }
    }
}

pub fn copy_metadata(m: &TokenMetadata) -> (c: TokenMetadata)
    ensures
        c == *m,
{
    TokenMetadata {
        name: m.name.clone(),
        symbol: m.symbol.clone(),
        decimals: m.decimals,
        total_supply: m.total_supply,
    }
}

impl TokenStorage {
    pub fn new() -> (r: TokenStorage)
        ensures
            r@.admin is None,
            r@.metadata is None,
            r@.balances.len() == 0,
            r@.allowances.len() == 0,
    {
        TokenStorage { admin: None, metadata: None, balances: Vec::new(), allowances: Vec::new() }
    }

    pub fn get_balance(&self, account: Address) -> (r: i128)
        ensures
            r == self@.balance(account),
    {
        let ghost p = of_balance(account);
        let mut found: Option<BalanceRecord> = None;
        let mut i: usize = 0;
        while i < self.balances.len()
            invariant
                i <= self.balances@.len(),
                p == of_balance(account),
                found == last_of(self.balances@.subrange(0, i as int), p),
            decreases self.balances@.len() - i,
        {
            proof {
                lemma_filter_prefix_step(self.balances@, p, i as int);
            }
            let b = self.balances[i];
            if b.account == account {
                found = Some(b);
            }
            i = i + 1;
        }
        proof {
            assert(self.balances@.subrange(0, i as int) =~= self.balances@);
        }
        match found {
            Some(b) => b.amount,
            None => 0,
        }
    }

    pub fn set_balance(&mut self, account: Address, amount: i128)
        ensures
            final(self)@ == old(self)@.with_balance(account, amount),
    {
        self.balances.push(BalanceRecord { account, amount });
    }

    pub fn get_allowance(&self, owner: Address, spender: Address) -> (r: Option<Allowance>)
        ensures
            r == self@.allowance(owner, spender),
    {
        let ghost p = of_allowance(owner, spender);
        let mut found: Option<AllowanceRecord> = None;
        let mut i: usize = 0;
        while i < self.allowances.len()
            invariant
                i <= self.allowances@.len(),
                p == of_allowance(owner, spender),
                found == last_of(self.allowances@.subrange(0, i as int), p),
            decreases self.allowances@.len() - i,
        {
            proof {
                lemma_filter_prefix_step(self.allowances@, p, i as int);
            }
            let a = self.allowances[i];
            if a.owner == owner && a.spender == spender {
                found = Some(a);
            }
            i = i + 1;
        }
        proof {
            assert(self.allowances@.subrange(0, i as int) =~= self.allowances@);
        }
        match found {
            Some(a) => Some(a.allowance),
            None => None,
        }
    }

    pub fn set_allowance(&mut self, owner: Address, spender: Address, allowance: Allowance)
        ensures
            final(self)@ == old(self)@.with_allowance(owner, spender, allowance),
    {
        self.allowances.push(AllowanceRecord { owner, spender, allowance });
    }

    pub fn get_metadata(&self) -> (r: Option<TokenMetadata>)
        ensures
            r == self@.metadata,
    {
        match &self.metadata {
            None => None,
            Some(m) => Some(copy_metadata(m)),
        }
    }

    pub fn set_metadata(&mut self, metadata: TokenMetadata)
        ensures
            final(self)@ == (TokenLedger { metadata: Some(metadata), ..old(self)@ }),
    {
        self.metadata = Some(metadata);
    }

    pub fn get_admin(&self) -> (r: Option<Address>)
        ensures
            r == self@.admin,
    {
        self.admin
    }

    pub fn set_admin(&mut self, admin: Address)
        ensures
            final(self)@ == (TokenLedger { admin: Some(admin), ..old(self)@ }),
    {
        self.admin = Some(admin);
    }

    /// Moves `amount` from `from` to `to`, debiting first.
    fn move_balance(&mut self, from: Address, to: Address, amount: i128) -> (r: Result<(), TokenError>)
        ensures
            match move_error(old(self)@, from, to, amount) {
                Some(e) => r == Err::<(), _>(e) && final(self)@ == old(self)@,
                None => r is Ok && final(self)@ == moved(old(self)@, from, to, amount),
            },
    {
        let from_balance = self.get_balance(from);
        if from_balance < amount {
            return Err(TokenError::InsufficientBalance);
        }
        let debited = match from_balance.checked_sub(amount) {
            None => return Err(TokenError::MathOverflow),
            Some(d) => d,
        };
        let ghost s1 = self@.with_balance(from, debited);
        let to_balance = if to == from {
            debited
        } else {
            self.get_balance(to)
        };
        proof {
            crate::seqs::lemma_filter_push(self@.balances, BalanceRecord { account: from, amount: debited }, of_balance(to));
        }
        let credited = match to_balance.checked_add(amount) {
            None => return Err(TokenError::MathOverflow),
            Some(c) => c,
        };
        self.set_balance(from, debited);
        self.set_balance(to, credited);
        Ok(())
    }
}

/// The token's operations.
pub struct TRQTokenContract;

impl TRQTokenContract {
    /// Names the admin and the token, once; the supply starts at 0.
    pub fn initialize(
        store: &mut TokenStorage,
        admin: Address,
        name: String,
        symbol: String,
        decimals: u32,
    ) -> (r: Result<(), TokenError>)
        ensures
            old(store)@.admin is Some ==> r == Err::<(), _>(TokenError::AlreadyInitialized)
                && final(store)@ == old(store)@,
            old(store)@.admin is None ==> r is Ok && final(store)@ == (TokenLedger {
                admin: Some(admin),
                metadata: Some(TokenMetadata { name, symbol, decimals, total_supply: 0 }),
                ..old(store)@
            }),
    {
        if store.get_admin().is_some() {
            return Err(TokenError::AlreadyInitialized);
        }
        store.set_admin(admin);
        store.set_metadata(TokenMetadata { name, symbol, decimals, total_supply: 0 });
        Ok(())
    }

    /// The admin creates `amount` new tokens for `to`.
    pub fn mint(store: &mut TokenStorage, admin: Address, to: Address, amount: i128) -> (r: Result<
        (),
        TokenError,
    >)
        ensures
            ({
                let s = old(store)@;
                if s.admin != Some(admin) {
                    r == Err::<(), _>(TokenError::Unauthorized) && final(store)@ == s
                } else if amount <= 0 {
                    r == Err::<(), _>(TokenError::InvalidAmount) && final(store)@ == s
                } else if !fits(s.balance(to) + amount) {
                    r == Err::<(), _>(TokenError::MathOverflow) && final(store)@ == s
                } else if s.metadata is None {
                    r == Err::<(), _>(TokenError::NotInitialized) && final(store)@ == s
                } else if !fits(s.metadata.unwrap().total_supply + amount) {
                    r == Err::<(), _>(TokenError::MathOverflow) && final(store)@ == s
                } else {
                    let m = s.metadata.unwrap();
                    &&& r is Ok
                    &&& final(store)@ == (TokenLedger {
                        metadata: Some(
                            TokenMetadata { total_supply: (m.total_supply + amount) as i128, ..m },
                        ),
                        ..s.with_balance(to, (s.balance(to) + amount) as i128)
                    })
                }
            }),
    {
        if store.get_admin() != Some(admin) {
            return Err(TokenError::Unauthorized);
        }
        if amount <= 0 {
            return Err(TokenError::InvalidAmount);
        }
        let balance = match store.get_balance(to).checked_add(amount) {
            None => return Err(TokenError::MathOverflow),
            Some(b) => b,
        };
        let mut metadata = match store.get_metadata() {
            None => return Err(TokenError::NotInitialized),
            Some(m) => m,
        };
        metadata.total_supply = match metadata.total_supply.checked_add(amount) {
            None => return Err(TokenError::MathOverflow),
            Some(t) => t,
        };
        store.set_balance(to, balance);
        store.set_metadata(metadata);
        Ok(())
    }

    /// Moves `amount` from the caller to `to`.
    pub fn transfer(store: &mut TokenStorage, from: Address, to: Address, amount: i128) -> (r: Result<
        (),
        TokenError,
    >)
        ensures
            amount <= 0 ==> r == Err::<(), _>(TokenError::InvalidAmount) && final(store)@
                == old(store)@,
            amount > 0 ==> match move_error(old(store)@, from, to, amount) {
                Some(e) => r == Err::<(), _>(e) && final(store)@ == old(store)@,
                None => r is Ok && final(store)@ == moved(old(store)@, from, to, amount),
            },
    {
        if amount <= 0 {
            return Err(TokenError::InvalidAmount);
        }
        store.move_balance(from, to, amount)
    }

    /// Lets `spender` move up to `amount` of the caller's tokens until the
    /// ledger sequence `expiration_ledger`, replacing an earlier allowance.
    pub fn approve(
        store: &mut TokenStorage,
        owner: Address,
        spender: Address,
        amount: i128,
        expiration_ledger: u32,
    )
        ensures
            final(store)@ == old(store)@.with_allowance(
                owner,
                spender,
                Allowance { amount, expiration_ledger },
            ),
    {
        store.set_allowance(owner, spender, Allowance { amount, expiration_ledger });
    }

    /// The spender moves `amount` from `from` to `to` out of its allowance,
    /// at ledger sequence `sequence`.
    pub fn transfer_from(
        store: &mut TokenStorage,
        sequence: u32,
        spender: Address,
        from: Address,
        to: Address,
        amount: i128,
    ) -> (r: Result<(), TokenError>)
        ensures
            ({
                let s = old(store)@;
                match s.allowance(from, spender) {
                    None => r == Err::<(), _>(TokenError::NoAllowance) && final(store)@ == s,
                    Some(a) => if sequence > a.expiration_ledger {
                        r == Err::<(), _>(TokenError::AllowanceExpired) && final(store)@ == s
                    } else if a.amount < amount {
                        r == Err::<(), _>(TokenError::InsufficientAllowance) && final(store)@ == s
                    } else if !fits(a.amount - amount) {
                        r == Err::<(), _>(TokenError::MathOverflow) && final(store)@ == s
                    } else {
                        let s1 = s.with_allowance(
                            from,
                            spender,
                            Allowance { amount: (a.amount - amount) as i128, ..a },
                        );
                        match move_error(s1, from, to, amount) {
                            Some(e) => r == Err::<(), _>(e) && final(store)@ == s,
                            None => r is Ok && final(store)@ == moved(s1, from, to, amount),
                        }
                    },
                }
            }),
    {
        let allowance = match store.get_allowance(from, spender) {
            None => return Err(TokenError::NoAllowance),
            Some(a) => a,
        };
        if sequence > allowance.expiration_ledger {
            return Err(TokenError::AllowanceExpired);
        }
        if allowance.amount < amount {
            return Err(TokenError::InsufficientAllowance);
        }
        let remaining = match allowance.amount.checked_sub(amount) {
            None => return Err(TokenError::MathOverflow),
            Some(r) => r,
        };
        let ghost s0 = store@;
        let ghost s1 = s0.with_allowance(
            from,
            spender,
            Allowance { amount: remaining, expiration_ledger: allowance.expiration_ledger },
        );
        proof {
            assert(s1.balances == s0.balances);
        }
        match store.move_balance(from, to, amount) {
            Err(e) => return Err(e),
            Ok(()) => {},
        }
        store.set_allowance(
            from,
            spender,
            Allowance { amount: remaining, expiration_ledger: allowance.expiration_ledger },
        );
        Ok(())
    }

    pub fn balance_of(store: &TokenStorage, account: Address) -> (r: i128)
        ensures
            r == store@.balance(account),
    {
        store.get_balance(account)
    }

    /// What `spender` may still move from `owner` at ledger sequence
    /// `sequence`; 0 once the allowance has expired.
    pub fn allowance(store: &TokenStorage, sequence: u32, owner: Address, spender: Address) -> (r: i128)
        ensures
            r == match store@.allowance(owner, spender) {
                Some(a) => if sequence <= a.expiration_ledger {
                    a.amount
                } else {
                    0
                },
                None => 0,
            },
    {
        match store.get_allowance(owner, spender) {
            Some(a) => if sequence <= a.expiration_ledger {
                a.amount
            } else {
                0
            },
            None => 0,
        }
    }

    pub fn total_supply(store: &TokenStorage) -> (r: i128)
        ensures
            r == match store@.metadata {
                Some(m) => m.total_supply,
                None => 0,
            },
    {
        match &store.metadata {
            Some(m) => m.total_supply,
            None => 0,
        }
    }

    /// The token's decimals; 7 before initialization.
    pub fn decimals(store: &TokenStorage) -> (r: u32)
        ensures
            r == match store@.metadata {
                Some(m) => m.decimals,
                None => 7,
            },
    {
        match &store.metadata {
            Some(m) => m.decimals,
            None => 7,
        }
    }

    pub fn name(store: &TokenStorage) -> (r: Option<String>)
        ensures
            r == match store@.metadata {
                Some(m) => Some(m.name),
                None => None,
            },
    {
        match &store.metadata {
            Some(m) => Some(m.name.clone()),
            None => None,
        }
    }

    pub fn symbol(store: &TokenStorage) -> (r: Option<String>)
        ensures
            r == match store@.metadata {
                Some(m) => Some(m.symbol),
                None => None,
            },
    {
        match &store.metadata {
            Some(m) => Some(m.symbol.clone()),
            None => None,
        }
    }
}

} // verus!
