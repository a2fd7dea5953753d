//! Durable records held by the program, and the error kinds it reports.
use vstd::prelude::*;

use crate::address::{zero_address, Address};

verus! {

/// Longest business name accepted, in characters.
pub const MAX_NAME_LEN: usize = 50;

/// Global protocol configuration (one instance, at a fixed derived address).
#[derive(Clone, Copy, Debug)]
pub struct Config {
    /// Protocol administrator.
    pub admin: Address,
    /// Currency accepted for payments (the native currency).
    pub payment_mint: Address,
    /// Disambiguation byte of the config address.
    pub bump: u8,
}

/// A registered business, one per owner identity.
#[derive(Clone, Debug)]
pub struct Business {
    /// The entrepreneur that owns the business; zero until registered.
    pub owner: Address,
    /// Display name, 1 to 50 characters once registered.
    pub name: String,
    /// The share-token mint; zero until the share mint is initialized.
    pub share_mint: Address,
    /// Number of shares the offering is made of.
    pub total_shares: u64,
    /// Price of one share in the smallest native-currency unit.
    pub price_per_share_lamports: u64,
    /// Account that receives sale proceeds.
    pub treasury: Address,
    /// Whether buyers may purchase shares from the vault.
    pub is_listed: bool,
    /// Disambiguation byte of the business address.
    pub bump: u8,
}

impl Default for Business {
    /// The record of a business account that was just created: every field
    /// zero, so the owner is the zero sentinel.
    fn default() -> (r: Business)
        ensures
            r.owner == zero_address(),
            r.name@ == Seq::<char>::empty(),
            r.share_mint == zero_address(),
            r.total_shares == 0,
            r.price_per_share_lamports == 0,
            r.treasury == zero_address(),
            !r.is_listed,
            r.bump == 0,
    {
        Business {
            owner: Address::zero(),
            name: String::new(),
            share_mint: Address::zero(),
            total_shares: 0,
            price_per_share_lamports: 0,
            treasury: Address::zero(),
            is_listed: false,
            bump: 0,
        }
    }
}

/// Record of the legacy mint authority of a business.
#[derive(Clone, Copy, Debug)]
pub struct MintAuthority {
    pub business: Address,
    pub bump: u8,
}

/// Record of the program-derived signer that controls a business's share
/// mint and share vault.
#[derive(Clone, Copy, Debug)]
pub struct ShareMintAuthority {
    pub business: Address,
    pub bump: u8,
}

/// An escrow offering: a batch of shares placed for sale at a fixed price.
#[derive(Clone, Copy, Debug)]
pub struct Offering {
    pub business: Address,
    pub share_mint: Address,
    pub payment_mint: Address,
    pub price_per_share: u64,
    /// Shares still held in the offering's escrow vault.
    pub remaining_shares: u64,
    /// False once the offering is exhausted; never true again.
    pub is_active: bool,
    pub bump: u8,
}

/// Token-ledger view of a mint: its supply and the signer allowed to issue.
#[derive(Clone, Copy, Debug, PartialEq, Eq)]
pub struct Mint {
    pub supply: u64,
    pub decimals: u8,
    pub mint_authority: Address,
}

/// Token-ledger view of a token account: which mint it holds, who controls
/// it, and its balance.
#[derive(Clone, Copy, Debug, PartialEq, Eq)]
pub struct TokenAccount {
    pub mint: Address,
    pub owner: Address,
    pub amount: u64,
}

/// Failures detected by the program's own checks.
#[derive(Clone, Copy, Debug, PartialEq, Eq, Structural)]
pub enum LocalshareError {
    EmptyBusinessName,
    BusinessNameTooLong,
    InvalidPrice,
    InvalidShareAmount,
    MathOverflow,
    OfferingNotActive,
    InsufficientShares,
    InvalidBusiness,
    InvalidBusinessOwner,
    BusinessAlreadyInitialized,
    BusinessAlreadyListed,
}

/// Why an instruction was rejected. A rejected instruction changes nothing.
#[derive(Clone, Copy, Debug, PartialEq, Eq, Structural)]
pub enum Error {
    /// One of the program's own checks failed.
    Localshare(LocalshareError),
    /// An account that the instruction creates exists already (or, for an
    /// escrow vault, already holds shares).
    AccountInUse,
    /// A currency transfer was asked of an account holding less than the amount.
    InsufficientLamports,
    /// A credit would take a balance or a supply past `u64::MAX`.
    BalanceOverflow,
    /// A token account does not hold the expected mint or is not controlled by
    /// the expected party.
    TokenAccountMismatch,
}

/// The result of an instruction whose first failed check is `e`, if any.
pub open spec fn result_of(e: Option<Error>) -> Result<(), Error> {
    match e {
        Some(e) => Err(e),
        None => Ok(()),
    }
}

/// The program's own check `e` as an instruction error.
pub open spec fn fail(e: LocalshareError) -> Option<Error> {
    Some(Error::Localshare(e))
}

impl LocalshareError {
    /// The human-readable message of this error.
    pub fn message(&self) -> (r: String)
        ensures
            *self == LocalshareError::EmptyBusinessName ==> r@ == "Business name cannot be empty"@,
            *self == LocalshareError::BusinessNameTooLong ==> r@ == "Business name cannot be longer than 50 characters"@,
            *self == LocalshareError::InvalidPrice ==> r@ == "Price per share must be greater than zero"@,
            *self == LocalshareError::InvalidShareAmount ==> r@ == "Share amount must be greater than zero"@,
            *self == LocalshareError::MathOverflow ==> r@ == "Math operation resulted in overflow"@,
            *self == LocalshareError::OfferingNotActive ==> r@ == "Offering is not active"@,
            *self == LocalshareError::InsufficientShares ==> r@ == "Not enough shares available"@,
            *self == LocalshareError::InvalidBusiness ==> r@ == "Invalid business or does not match offering"@,
            *self == LocalshareError::InvalidBusinessOwner ==> r@ == "Invalid business owner"@,
            *self == LocalshareError::BusinessAlreadyInitialized ==> r@ == "Business is already initialized and cannot be re-initialized"@,
            *self == LocalshareError::BusinessAlreadyListed ==> r@ == "Business is already listed on the marketplace"@,
    {
        match self {
            LocalshareError::EmptyBusinessName => String::from_str("Business name cannot be empty"),
            LocalshareError::BusinessNameTooLong => String::from_str(
                "Business name cannot be longer than 50 characters",
            ),
            LocalshareError::InvalidPrice => String::from_str(
                "Price per share must be greater than zero",
            ),
            LocalshareError::InvalidShareAmount => String::from_str(
                "Share amount must be greater than zero",
            ),
            LocalshareError::MathOverflow => String::from_str(
                "Math operation resulted in overflow",
            ),
            LocalshareError::OfferingNotActive => String::from_str("Offering is not active"),
            LocalshareError::InsufficientShares => String::from_str("Not enough shares available"),
            LocalshareError::InvalidBusiness => String::from_str(
                "Invalid business or does not match offering",
            ),
            LocalshareError::InvalidBusinessOwner => String::from_str("Invalid business owner"),
            LocalshareError::BusinessAlreadyInitialized => String::from_str(
                "Business is already initialized and cannot be re-initialized",
            ),
            LocalshareError::BusinessAlreadyListed => String::from_str(
                "Business is already listed on the marketplace",
            ),
        }
    }
}

} // verus!
