//! Direct purchase of shares from a listed business's share vault.
use vstd::prelude::*;

use crate::address::Address;
use crate::ledger::{can_credit, credited, fits_associated, fits_u64, held, held_amount, is_associated};
use crate::state::{
    fail, result_of, Business, Error, LocalshareError, ShareMintAuthority, TokenAccount,
};

verus! {

/// Accounts of a direct purchase.
pub struct BuySharesFromBusiness {
    /// The investor, who pays and receives the shares.
    pub buyer: Address,
    pub buyer_lamports: u64,
    pub business_key: Address,
    pub business: Business,
    /// Address of the business's share mint.
    pub share_mint: Address,
    /// The vault that custodies the unsold shares.
    pub shares_vault: TokenAccount,
    /// Address of the program-derived signer that controls the vault.
    pub share_mint_authority_key: Address,
    pub share_mint_authority: ShareMintAuthority,
    /// The account that receives the payment.
    pub treasury: Address,
    pub treasury_lamports: u64,
    /// The buyer's associated token account for the share mint, if it exists.
    pub buyer_shares_ata: Option<TokenAccount>,
}

/// The first failure of the account checks of a direct purchase: the
/// business, vault, treasury and authority must belong together, and the
/// buyer's account must be its associated account for the share mint.
pub open spec fn buy_accounts_error(c: BuySharesFromBusiness) -> Option<Error> {
    if c.business.share_mint != c.share_mint || c.shares_vault.mint != c.share_mint
        || c.treasury != c.business.treasury || c.share_mint_authority.business
        != c.business_key {
        fail(LocalshareError::InvalidBusiness)
    } else if !fits_associated(c.buyer_shares_ata, c.share_mint, c.buyer) {
        Some(Error::TokenAccountMismatch)
    } else {
        None
    }
}

/// The first check that `buy_shares(c, amount)` fails, or `None` when the
/// purchase goes through.
pub open spec fn buy_shares_error(c: BuySharesFromBusiness, amount: u64) -> Option<Error> {
    let cost = c.business.price_per_share_lamports * amount;
    if buy_accounts_error(c) is Some {
        buy_accounts_error(c)
    } else if !c.business.is_listed {
        fail(LocalshareError::OfferingNotActive)
    } else if amount == 0 {
        fail(LocalshareError::InvalidShareAmount)
    } else if c.shares_vault.amount < amount {
        fail(LocalshareError::InsufficientShares)
    } else if cost > u64::MAX {
        fail(LocalshareError::MathOverflow)
    } else if c.buyer_lamports < cost {
        Some(Error::InsufficientLamports)
    } else if c.treasury_lamports + cost > u64::MAX {
        Some(Error::BalanceOverflow)
    } else if c.shares_vault.owner != c.share_mint_authority_key {
        Some(Error::TokenAccountMismatch)
    } else if !fits_u64(held(c.buyer_shares_ata), amount) {
        Some(Error::BalanceOverflow)
    } else {
        None
    }
}

/// The accounts after a successful purchase of `amount` shares: the buyer
/// paid `price * amount` to the treasury, and `amount` shares moved from the
/// vault to the buyer's associated token account.
pub open spec fn after_buy_shares(c: BuySharesFromBusiness, amount: u64) -> BuySharesFromBusiness {
    let cost = c.business.price_per_share_lamports * amount;
    BuySharesFromBusiness {
        buyer_lamports: (c.buyer_lamports - cost) as u64,
        treasury_lamports: (c.treasury_lamports + cost) as u64,
        shares_vault: TokenAccount {
            amount: (c.shares_vault.amount - amount) as u64,
            ..c.shares_vault
        },
        buyer_shares_ata: Some(credited(c.buyer_shares_ata, c.share_mint, c.buyer, amount)),
        ..c
    }
}

/// Buys `amount_shares` shares of a listed business from its vault. Both
/// legs (payment to the treasury, shares to the buyer) apply, or neither.
pub fn buy_shares(ctx: &mut BuySharesFromBusiness, amount_shares: u64) -> (r: Result<(), Error>)
    ensures
        r == result_of(buy_shares_error(*old(ctx), amount_shares)),
        r is Ok ==> *final(ctx) == after_buy_shares(*old(ctx), amount_shares),
        r is Err ==> *final(ctx) == *old(ctx),
{
    if ctx.business.share_mint != ctx.share_mint || ctx.shares_vault.mint != ctx.share_mint
        || ctx.treasury != ctx.business.treasury || ctx.share_mint_authority.business
        != ctx.business_key {
        return Err(Error::Localshare(LocalshareError::InvalidBusiness));
    }
    if !is_associated(&ctx.buyer_shares_ata, &ctx.share_mint, &ctx.buyer) {
        return Err(Error::TokenAccountMismatch);
    }
    if !ctx.business.is_listed {
        return Err(Error::Localshare(LocalshareError::OfferingNotActive));
    }
    if amount_shares == 0 {
        return Err(Error::Localshare(LocalshareError::InvalidShareAmount));
    }
    if ctx.shares_vault.amount < amount_shares {
        return Err(Error::Localshare(LocalshareError::InsufficientShares));
    }
    let cost = match ctx.business.price_per_share_lamports.checked_mul(amount_shares) {
        Some(c) => c,
        None => return Err(Error::Localshare(LocalshareError::MathOverflow)),
    };
    if ctx.buyer_lamports < cost {
        return Err(Error::InsufficientLamports);
    }
    if !can_credit(ctx.treasury_lamports, cost) {
        return Err(Error::BalanceOverflow);
    }
    if ctx.shares_vault.owner != ctx.share_mint_authority_key {
        return Err(Error::TokenAccountMismatch);
    }
    let held_before = held_amount(&ctx.buyer_shares_ata);
    if !can_credit(held_before, amount_shares) {
        return Err(Error::BalanceOverflow);
    }
    ctx.buyer_lamports = ctx.buyer_lamports - cost;
    ctx.treasury_lamports = ctx.treasury_lamports + cost;
    ctx.shares_vault.amount = ctx.shares_vault.amount - amount_shares;
    ctx.buyer_shares_ata = Some(
        TokenAccount { mint: ctx.share_mint, owner: ctx.buyer, amount: held_before + amount_shares },
    );
    Ok(())
}

} // verus!
