//! Plain-value models of token amounts, prices and token accounts.
//!
//! A token is identified by a small id; id 0 is the native token
//! (lamports). A price is a plain conversion rate: the oracle client that
//! produces it is outside the core.

use vstd::prelude::*;
use crate::U256;
use crate::error::ElusivError;

verus! {

/// The number of supported non-native tokens.
pub const SPL_TOKEN_COUNT: usize = 6;

/// The id of the native token.
pub const LAMPORTS_TOKEN_ID: u16 = 0;

/// A lamport amount.
#[derive(Clone, Copy, PartialEq, Eq, Structural, Debug)]
pub struct Lamports(pub u64);

impl Lamports {
    /// The sum of two lamport amounts; fails on overflow.
    pub fn try_add(self, other: Lamports) -> (r: Result<Lamports, ElusivError>)
        ensures
            match r {
                Ok(sum) => sum.0 == self.0 + other.0,
                Err(e) => self.0 + other.0 > u64::MAX && e == ElusivError::InvalidAmount,
            },
    {
        match self.0.checked_add(other.0) {
            Some(v) => Ok(Lamports(v)),
            None => Err(ElusivError::InvalidAmount),
        }
    }
}

/// An amount of one token.
#[derive(Clone, Copy, PartialEq, Eq, Structural, Debug)]
pub struct Token {
    pub token_id: u16,
    pub amount: u64,
}

impl Token {
    pub fn new(token_id: u16, amount: u64) -> (r: Token)
        ensures
            r.token_id == token_id,
            r.amount == amount,
    {
        Token { token_id, amount }
    }

    /// A token amount of a valid token id; fails on an unknown id.
    pub fn new_checked(token_id: u16, amount: u64) -> (r: Result<Token, ElusivError>)
        ensures
            match r {
                Ok(t) => token_id <= SPL_TOKEN_COUNT && t.token_id == token_id && t.amount
                    == amount,
                Err(e) => token_id > SPL_TOKEN_COUNT && e == ElusivError::InvalidAccount,
            },
    {
        if token_id as usize > SPL_TOKEN_COUNT {
            return Err(ElusivError::InvalidAccount);
        }
        Ok(Token { token_id, amount })
    }

    pub fn amount(&self) -> (r: u64)
        ensures
            r == self.amount,
    {
        self.amount
    }

    /// The sum of two amounts of the same token; fails on a token mismatch
    /// or overflow.
    pub fn try_add(self, other: Token) -> (r: Result<Token, ElusivError>)
        ensures
            match r {
                Ok(sum) => {
                    &&& self.token_id == other.token_id
                    &&& sum.token_id == self.token_id
                    &&& sum.amount == self.amount + other.amount
                },
                Err(e) => {
                    ||| (self.token_id != other.token_id && e == ElusivError::InvalidAccount)
                    ||| (self.token_id == other.token_id && self.amount + other.amount > u64::MAX
                        && e == ElusivError::InvalidAmount)
                },
            },
    {
        if self.token_id != other.token_id {
            return Err(ElusivError::InvalidAccount);
        }
        match self.amount.checked_add(other.amount) {
            Some(v) => Ok(Token { token_id: self.token_id, amount: v }),
            None => Err(ElusivError::InvalidAmount),
        }
    }

    /// The difference of two amounts of the same token; fails on a token
    /// mismatch or underflow.
    pub fn try_sub(self, other: Token) -> (r: Result<Token, ElusivError>)
        ensures
            match r {
                Ok(diff) => {
                    &&& self.token_id == other.token_id
                    &&& diff.token_id == self.token_id
                    &&& diff.amount == self.amount - other.amount
                },
                Err(e) => {
                    ||| (self.token_id != other.token_id && e == ElusivError::InvalidAccount)
                    ||| (self.token_id == other.token_id && self.amount < other.amount && e
                        == ElusivError::InvalidAmount)
                },
            },
    {
        if self.token_id != other.token_id {
            return Err(ElusivError::InvalidAccount);
        }
        match self.amount.checked_sub(other.amount) {
            Some(v) => Ok(Token { token_id: self.token_id, amount: v }),
            None => Err(ElusivError::InvalidAmount),
        }
    }
}

/// A conversion rate from lamports into a token, as a plain fraction; the
/// oracle client that derives it from price feeds is outside the core.
#[derive(Clone, Copy)]
pub struct TokenPrice {
    pub token_id: u16,
    /// Token units per `denominator` lamports.
    pub numerator: u64,
    pub denominator: u64,
}

impl TokenPrice {
    pub open spec fn wf(&self) -> bool {
        self.denominator >= 1
    }

    /// The identity price of the native token.
    pub fn native() -> (r: Self)
        ensures
            r.wf(),
            r.token_id == 0,
            r.numerator == 1,
            r.denominator == 1,
    {
        TokenPrice { token_id: 0, numerator: 1, denominator: 1 }
    }

    /// The spec-level conversion of a lamport amount.
    pub open spec fn spec_into_token(&self, token_id: u16, lamports: u64) -> int {
        if token_id == 0 {
            lamports as int
        } else {
            (lamports * self.numerator) / self.denominator as int
        }
    }

    /// Converts a lamport amount into the token: the identity for the
    /// native token, otherwise by the rate.
    pub fn lamports_into_token(&self, lamports: Lamports, token_id: u16) -> (r: Result<
        Token,
        ElusivError,
    >)
        requires
            self.wf(),
        ensures
            match r {
                Ok(t) => {
                    &&& t.token_id == token_id
                    &&& t.amount == self.spec_into_token(token_id, lamports.0)
                    &&& (token_id != 0 ==> token_id == self.token_id)
                },
                Err(e) => {
                    ||| (e == ElusivError::InvalidAccount && token_id != 0 && token_id
                        != self.token_id)
                    ||| (e == ElusivError::InvalidAmount && self.spec_into_token(
                        token_id,
                        lamports.0,
                    ) > u64::MAX)
                },
            },
    {
        if token_id == 0 {
            return Ok(Token { token_id: 0, amount: lamports.0 });
        }
        if token_id != self.token_id {
            return Err(ElusivError::InvalidAccount);
        }
        proof {
            assert(lamports.0 as int * self.numerator as int <= u64::MAX as int * u64::MAX as int)
                by (nonlinear_arith)
                requires
                    self.numerator <= u64::MAX,
                    lamports.0 <= u64::MAX,
            ;
        }
        let wide = (lamports.0 as u128) * (self.numerator as u128);
        let amount = wide / (self.denominator as u128);
        if amount > u64::MAX as u128 {
            return Err(ElusivError::InvalidAmount);
        }
        Ok(Token { token_id, amount: amount as u64 })
    }
}

/// A token account as the settlement pipeline sees it: its address, the
/// token it holds, the wallet it is derived from (for associated
/// accounts), its balance, and its lamports (zero exactly while the
/// account does not exist).
pub struct TokenAccount {
    pub key: U256,
    pub token_id: u16,
    pub wallet: U256,
    pub amount: u64,
    pub lamports: u64,
}

/// Whether the account is a valid account of the token.
pub fn verify_token_account(account: &TokenAccount, token_id: u16) -> (r: Result<
    bool,
    ElusivError,
>)
    ensures
        r == Ok::<bool, ElusivError>(account.token_id == token_id),
{
    Ok(account.token_id == token_id)
}

/// Whether `account_key` is the associated token account of `wallet_key`
/// for the token, as the account itself records its derivation.
pub fn verify_associated_token_account(
    account: &TokenAccount,
    wallet_key: &U256,
    token_id: u16,
) -> (r: Result<bool, ElusivError>)
    ensures
        r == Ok::<bool, ElusivError>(
            account.wallet@ == wallet_key@ && account.token_id == token_id,
        ),
{
    Ok(crate::u256_eq(&account.wallet, wallet_key) && account.token_id == token_id)
}

} // verus!
