//! The escrow offering path: an owner places a batch of shares in an
//! offering's own vault, and investors draw it down until it is exhausted.
use vstd::prelude::*;

use crate::address::Address;
use crate::ledger::{can_credit, credited, fits_associated, fits_u64, held, held_amount, is_associated};
use crate::state::{
    fail, result_of, Business, Config, Error, LocalshareError, Offering, TokenAccount,
};

verus! {

/// Accounts of `create_offering`.
pub struct CreateOffering {
    pub offering_key: Address,
    /// The offering record; `None` until it is created.
    pub offering: Option<Offering>,
    /// Disambiguation byte of the offering address.
    pub offering_bump: u8,
    pub business_key: Address,
    pub business: Business,
    pub config: Config,
    /// Address of the share mint offered.
    pub mint: Address,
    /// The owner's holding of shares, from which the batch is taken.
    pub owner_token_account: TokenAccount,
    /// The offering's escrow vault (its associated token account), if it
    /// exists; it must hold no shares yet.
    pub offering_vault: Option<TokenAccount>,
    pub owner: Address,
}

/// The first check that `create_offering(c, price, initial)` fails, or `None`.
pub open spec fn create_offering_error(c: CreateOffering, price_per_share: u64, initial_shares: u64) -> Option<Error> {
    if c.offering is Some {
        Some(Error::AccountInUse)
    } else if c.business.owner != c.owner {
        fail(LocalshareError::InvalidBusinessOwner)
    } else if c.business.share_mint != c.mint {
        fail(LocalshareError::InvalidBusiness)
    } else if c.owner_token_account.owner != c.owner {
        fail(LocalshareError::InvalidBusinessOwner)
    } else if c.owner_token_account.mint != c.mint {
        fail(LocalshareError::InvalidBusiness)
    } else if !fits_associated(c.offering_vault, c.mint, c.offering_key) {
        Some(Error::TokenAccountMismatch)
    } else if held(c.offering_vault) != 0 {
        Some(Error::AccountInUse)
    } else if price_per_share == 0 {
        fail(LocalshareError::InvalidPrice)
    } else if initial_shares == 0 {
        fail(LocalshareError::InvalidShareAmount)
    } else if price_per_share * initial_shares > u64::MAX {
        fail(LocalshareError::MathOverflow)
    } else if c.owner_token_account.amount < initial_shares {
        fail(LocalshareError::InsufficientShares)
    } else {
        None
    }
}

/// The accounts after a successful `create_offering`: the batch moved from
/// the owner's holding to the (empty) escrow vault, which now holds exactly
/// the `initial_shares` that the new active offering records as remaining.
pub open spec fn after_create_offering(c: CreateOffering, price_per_share: u64, initial_shares: u64) -> CreateOffering {
    CreateOffering {
        offering: Some(
            Offering {
                business: c.business_key,
                share_mint: c.business.share_mint,
                payment_mint: c.config.payment_mint,
                price_per_share,
                remaining_shares: initial_shares,
                is_active: true,
                bump: c.offering_bump,
            },
        ),
        owner_token_account: TokenAccount {
            amount: (c.owner_token_account.amount - initial_shares) as u64,
            ..c.owner_token_account
        },
        offering_vault: Some(
            TokenAccount { mint: c.mint, owner: c.offering_key, amount: initial_shares },
        ),
        ..c
    }
}

/// Creates an escrow offering of `initial_shares` shares at `price_per_share`,
/// moving the shares from the owner's holding into the offering's vault. The
/// vault must be fresh: one that already holds shares is refused.
pub fn create_offering(ctx: &mut CreateOffering, price_per_share: u64, initial_shares: u64) -> (r: Result<(), Error>)
    ensures
        r == result_of(create_offering_error(*old(ctx), price_per_share, initial_shares)),
        r is Ok ==> *final(ctx) == after_create_offering(*old(ctx), price_per_share, initial_shares),
        r is Ok ==> final(ctx).offering_vault->0.amount == final(ctx).offering->0.remaining_shares,
        r is Err ==> *final(ctx) == *old(ctx),
{
    if ctx.offering.is_some() {
        return Err(Error::AccountInUse);
    }
    if ctx.business.owner != ctx.owner {
        return Err(Error::Localshare(LocalshareError::InvalidBusinessOwner));
    }
    if ctx.business.share_mint != ctx.mint {
        return Err(Error::Localshare(LocalshareError::InvalidBusiness));
    }
    if ctx.owner_token_account.owner != ctx.owner {
        return Err(Error::Localshare(LocalshareError::InvalidBusinessOwner));
    }
    if ctx.owner_token_account.mint != ctx.mint {
        return Err(Error::Localshare(LocalshareError::InvalidBusiness));
    }
    if !is_associated(&ctx.offering_vault, &ctx.mint, &ctx.offering_key) {
        return Err(Error::TokenAccountMismatch);
    }
    if held_amount(&ctx.offering_vault) != 0 {
        return Err(Error::AccountInUse);
    }
    if price_per_share == 0 {
        return Err(Error::Localshare(LocalshareError::InvalidPrice));
    }
    if initial_shares == 0 {
        return Err(Error::Localshare(LocalshareError::InvalidShareAmount));
    }
    if price_per_share.checked_mul(initial_shares).is_none() {
        return Err(Error::Localshare(LocalshareError::MathOverflow));
    }
    if ctx.owner_token_account.amount < initial_shares {
        return Err(Error::Localshare(LocalshareError::InsufficientShares));
    }
    ctx.owner_token_account.amount = ctx.owner_token_account.amount - initial_shares;
    ctx.offering_vault = Some(
        TokenAccount { mint: ctx.mint, owner: ctx.offering_key, amount: initial_shares },
    );
    ctx.offering = Some(
        Offering {
            business: ctx.business_key,
            share_mint: ctx.business.share_mint,
            payment_mint: ctx.config.payment_mint,
            price_per_share,
            remaining_shares: initial_shares,
            is_active: true,
            bump: ctx.offering_bump,
        },
    );
    Ok(())
}

/// Accounts of a purchase from an escrow offering.
pub struct BuyShares {
    pub offering_key: Address,
    pub offering: Offering,
    pub business_key: Address,
    pub business: Business,
    /// Address of the share mint offered.
    pub mint: Address,
    /// The offering's escrow vault.
    pub offering_vault: TokenAccount,
    /// The buyer's associated token account for the mint, if it exists.
    pub buyer_token_account: Option<TokenAccount>,
    /// The business owner, who receives the payment.
    pub owner: Address,
    pub owner_lamports: u64,
    pub buyer: Address,
    pub buyer_lamports: u64,
}

/// The first failure of the account checks of a purchase from an offering:
/// offering, business, owner, mint and vault must belong together, and the
/// buyer's account must be its associated account for the mint.
pub open spec fn offering_accounts_error(c: BuyShares) -> Option<Error> {
    if c.offering.business != c.business_key {
        fail(LocalshareError::InvalidBusiness)
    } else if c.business.owner != c.owner {
        fail(LocalshareError::InvalidBusinessOwner)
    } else if c.offering.share_mint != c.mint || c.offering_vault.mint != c.mint {
        fail(LocalshareError::InvalidBusiness)
    } else if !fits_associated(c.buyer_token_account, c.mint, c.buyer) {
        Some(Error::TokenAccountMismatch)
    } else {
        None
    }
}

/// The first check that `buy_shares_from_offering(c, amount)` fails, or `None`.
pub open spec fn buy_from_offering_error(c: BuyShares, amount: u64) -> Option<Error> {
    let cost = c.offering.price_per_share * amount;
    if offering_accounts_error(c) is Some {
        offering_accounts_error(c)
    } else if !c.offering.is_active {
        fail(LocalshareError::OfferingNotActive)
    } else if amount == 0 {
        fail(LocalshareError::InvalidShareAmount)
    } else if amount > c.offering.remaining_shares || c.offering_vault.amount < amount {
        fail(LocalshareError::InsufficientShares)
    } else if cost > u64::MAX {
        fail(LocalshareError::MathOverflow)
    } else if c.buyer_lamports < cost {
        Some(Error::InsufficientLamports)
    } else if c.owner_lamports + cost > u64::MAX {
        Some(Error::BalanceOverflow)
    } else if c.offering_vault.owner != c.offering_key {
        Some(Error::TokenAccountMismatch)
    } else if !fits_u64(held(c.buyer_token_account), amount) {
        Some(Error::BalanceOverflow)
    } else {
        None
    }
}

/// The accounts after a successful purchase of `amount` shares from the
/// offering: the buyer paid `price * amount` to the owner, `amount` shares
/// moved from the escrow vault to the buyer, and the offering has `amount`
/// fewer remaining, turning inactive when none remain.
pub open spec fn after_buy_from_offering(c: BuyShares, amount: u64) -> BuyShares {
    let cost = c.offering.price_per_share * amount;
    let remaining = (c.offering.remaining_shares - amount) as u64;
    BuyShares {
        offering: Offering {
            remaining_shares: remaining,
            is_active: remaining != 0,
            ..c.offering
        },
        offering_vault: TokenAccount {
            amount: (c.offering_vault.amount - amount) as u64,
            ..c.offering_vault
        },
        buyer_token_account: Some(credited(c.buyer_token_account, c.mint, c.buyer, amount)),
        owner_lamports: (c.owner_lamports + cost) as u64,
        buyer_lamports: (c.buyer_lamports - cost) as u64,
        ..c
    }
}

/// Buys `amount` shares from an active escrow offering. Payment to the
/// owner and delivery from the escrow vault apply together or not at all.
pub fn buy_shares_from_offering(ctx: &mut BuyShares, amount: u64) -> (r: Result<(), Error>)
    ensures
        r == result_of(buy_from_offering_error(*old(ctx), amount)),
        r is Ok ==> *final(ctx) == after_buy_from_offering(*old(ctx), amount),
        r is Err ==> *final(ctx) == *old(ctx),
{
    if ctx.offering.business != ctx.business_key {
        return Err(Error::Localshare(LocalshareError::InvalidBusiness));
    }
    if ctx.business.owner != ctx.owner {
        return Err(Error::Localshare(LocalshareError::InvalidBusinessOwner));
    }
    if ctx.offering.share_mint != ctx.mint || ctx.offering_vault.mint != ctx.mint {
        return Err(Error::Localshare(LocalshareError::InvalidBusiness));
    }
    if !is_associated(&ctx.buyer_token_account, &ctx.mint, &ctx.buyer) {
        return Err(Error::TokenAccountMismatch);
    }
    if !ctx.offering.is_active {
        return Err(Error::Localshare(LocalshareError::OfferingNotActive));
    }
    if amount == 0 {
        return Err(Error::Localshare(LocalshareError::InvalidShareAmount));
    }
    if amount > ctx.offering.remaining_shares || ctx.offering_vault.amount < amount {
        return Err(Error::Localshare(LocalshareError::InsufficientShares));
    }
    let cost = match ctx.offering.price_per_share.checked_mul(amount) {
        Some(c) => c,
        None => return Err(Error::Localshare(LocalshareError::MathOverflow)),
    };
    if ctx.buyer_lamports < cost {
        return Err(Error::InsufficientLamports);
    }
    if !can_credit(ctx.owner_lamports, cost) {
        return Err(Error::BalanceOverflow);
    }
    if ctx.offering_vault.owner != ctx.offering_key {
        return Err(Error::TokenAccountMismatch);
    }
    let held_before = held_amount(&ctx.buyer_token_account);
    if !can_credit(held_before, amount) {
        return Err(Error::BalanceOverflow);
    }
    ctx.buyer_lamports = ctx.buyer_lamports - cost;
    ctx.owner_lamports = ctx.owner_lamports + cost;
    ctx.offering_vault.amount = ctx.offering_vault.amount - amount;
    ctx.buyer_token_account = Some(
        TokenAccount { mint: ctx.mint, owner: ctx.buyer, amount: held_before + amount },
    );
    ctx.offering.remaining_shares = ctx.offering.remaining_shares - amount;
    if ctx.offering.remaining_shares == 0 {
        ctx.offering.is_active = false;
    }
    Ok(())
}

} // verus!
