//! Creation of a business's share mint, its program-derived authority and
//! its share vault, with the whole share supply issued into the vault.
use vstd::prelude::*;

use crate::address::Address;
use crate::state::{
    fail, result_of, Business, Error, LocalshareError, Mint, ShareMintAuthority, TokenAccount,
};

verus! {

/// Accounts of `init_share_mint`. The mint, its authority and the vault are
/// `None` until they are created.
pub struct InitShareMint {
    pub business_key: Address,
    pub business: Business,
    /// The caller, who must own the business.
    pub owner: Address,
    pub share_mint_key: Address,
    pub share_mint: Option<Mint>,
    pub share_mint_authority_key: Address,
    pub share_mint_authority: Option<ShareMintAuthority>,
    /// Disambiguation byte of the share mint authority's address.
    pub share_mint_authority_bump: u8,
    pub shares_vault: Option<TokenAccount>,
}

/// The first check that `init_share_mint(c)` fails, or `None`.
pub open spec fn init_share_mint_error(c: InitShareMint) -> Option<Error> {
    if c.business.owner != c.owner {
        fail(LocalshareError::InvalidBusinessOwner)
    } else if c.share_mint is Some || c.share_mint_authority is Some || c.shares_vault is Some {
        Some(Error::AccountInUse)
    } else if c.business.total_shares == 0 {
        fail(LocalshareError::InvalidShareAmount)
    } else {
        None
    }
}

/// The accounts after a successful `init_share_mint`: a whole-share mint whose
/// supply is `total_shares`, all of it in a vault controlled by the share mint
/// authority, and the business pointing at the new mint.
pub open spec fn after_init_share_mint(c: InitShareMint) -> InitShareMint {
    InitShareMint {
        business: Business { share_mint: c.share_mint_key, ..c.business },
        share_mint: Some(
            Mint {
                supply: c.business.total_shares,
                decimals: 0,
                mint_authority: c.share_mint_authority_key,
            },
        ),
        share_mint_authority: Some(
            ShareMintAuthority { business: c.business_key, bump: c.share_mint_authority_bump },
        ),
        shares_vault: Some(
            TokenAccount {
                mint: c.share_mint_key,
                owner: c.share_mint_authority_key,
                amount: c.business.total_shares,
            },
        ),
        ..c
    }
}

/// Creates the share mint, its authority and the share vault of the
/// caller's business, and issues `total_shares` shares into the vault.
pub fn init_share_mint(ctx: &mut InitShareMint) -> (r: Result<(), Error>)
    ensures
        r == result_of(init_share_mint_error(*old(ctx))),
        r is Err ==> *final(ctx) == *old(ctx),
        r is Ok ==> *final(ctx) == after_init_share_mint(*old(ctx)),
{
    if ctx.business.owner != ctx.owner {
        return Err(Error::Localshare(LocalshareError::InvalidBusinessOwner));
    }
    if ctx.share_mint.is_some() || ctx.share_mint_authority.is_some() || ctx.shares_vault.is_some() {
        return Err(Error::AccountInUse);
    }
    if ctx.business.total_shares == 0 {
        return Err(Error::Localshare(LocalshareError::InvalidShareAmount));
    }
    ctx.share_mint_authority = Some(
        ShareMintAuthority { business: ctx.business_key, bump: ctx.share_mint_authority_bump },
    );
    ctx.business.share_mint = ctx.share_mint_key;
    let mut mint = Mint { supply: 0, decimals: 0, mint_authority: ctx.share_mint_authority_key };
    let mut vault = TokenAccount {
        mint: ctx.share_mint_key,
        owner: ctx.share_mint_authority_key,
        amount: 0,
    };
    mint.supply = mint.supply + ctx.business.total_shares;
    vault.amount = vault.amount + ctx.business.total_shares;
    ctx.share_mint = Some(mint);
    ctx.shares_vault = Some(vault);
    Ok(())
}

} // verus!
