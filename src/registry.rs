//! The business lifecycle: registration (an upsert keyed by the owner),
//! configuration of the offering's economics, and listing.
use vstd::prelude::*;

use crate::address::{zero_address, Address};
use crate::state::{fail, result_of, Business, Error, LocalshareError, MAX_NAME_LEN};

verus! {

/// Accounts of `register_business`.
pub struct RegisterBusiness {
    /// The owner's business record; all zero when it was just created.
    pub business: Business,
    /// Disambiguation byte of the business address.
    pub business_bump: u8,
    /// The caller, who owns the business.
    pub owner: Address,
}

/// A name that a business may carry: 1 to 50 characters.
pub open spec fn valid_name(name: Seq<char>) -> bool {
    0 < name.len() <= MAX_NAME_LEN
}

/// The first check that `register_business(c, name)` fails, or `None`.
pub open spec fn register_error(c: RegisterBusiness, name: Seq<char>) -> Option<Error> {
    if name.len() == 0 {
        fail(LocalshareError::EmptyBusinessName)
    } else if name.len() > MAX_NAME_LEN {
        fail(LocalshareError::BusinessNameTooLong)
    } else if !c.business.owner.is_zero_spec() && c.business.owner != c.owner {
        fail(LocalshareError::InvalidBusinessOwner)
    } else {
        None
    }
}

/// The accounts after a successful registration. A new business gets no
/// share mint, no offering, the owner as treasury and is not listed; a
/// registered one only takes the new name.
pub open spec fn after_register(c: RegisterBusiness, name: String) -> RegisterBusiness {
    let business = if c.business.owner.is_zero_spec() {
        Business {
            owner: c.owner,
            name,
            share_mint: zero_address(),
            total_shares: 0,
            price_per_share_lamports: 0,
            treasury: c.owner,
            is_listed: false,
            bump: c.business_bump,
        }
    } else {
        Business { name, ..c.business }
    };
    RegisterBusiness { business, ..c }
}

/// Registers the caller's business, or renames it when it is registered
/// already. A zero owner field marks a record that was just created.
pub fn register_business(ctx: &mut RegisterBusiness, name: String) -> (r: Result<(), Error>)
    ensures
        r == result_of(register_error(*old(ctx), name@)),
        r is Err ==> *final(ctx) == *old(ctx),
        r is Ok ==> *final(ctx) == after_register(*old(ctx), name),
        r is Ok ==> valid_name(final(ctx).business.name@),
{
    let len = name.as_str().unicode_len();
    if len == 0 {
        return Err(Error::Localshare(LocalshareError::EmptyBusinessName));
    }
    if len > MAX_NAME_LEN {
        return Err(Error::Localshare(LocalshareError::BusinessNameTooLong));
    }
    if ctx.business.owner.is_zero() {
        ctx.business.owner = ctx.owner;
        ctx.business.name = name;
        ctx.business.share_mint = Address::zero();
        ctx.business.total_shares = 0;
        ctx.business.price_per_share_lamports = 0;
        ctx.business.treasury = ctx.owner;
        ctx.business.is_listed = false;
        ctx.business.bump = ctx.business_bump;
    } else {
        if ctx.business.owner != ctx.owner {
            return Err(Error::Localshare(LocalshareError::InvalidBusinessOwner));
        }
        ctx.business.name = name;
    }
    Ok(())
}

/// Accounts of `configure_offering`: the business and the caller.
pub struct ConfigureOffering {
    pub business: Business,
    pub owner: Address,
}

/// The first check that `configure_offering(c, total, price, _)` fails, or `None`.
pub open spec fn configure_error(c: ConfigureOffering, total_shares: u64, price_per_share_lamports: u64) -> Option<Error> {
    if c.business.owner != c.owner {
        fail(LocalshareError::InvalidBusinessOwner)
    } else if total_shares == 0 {
        fail(LocalshareError::InvalidShareAmount)
    } else if price_per_share_lamports == 0 {
        fail(LocalshareError::InvalidPrice)
    } else {
        None
    }
}

/// The accounts after a successful `configure_offering`: the three economic
/// fields are overwritten and the business is unlisted.
pub open spec fn after_configure(
    c: ConfigureOffering,
    total_shares: u64,
    price_per_share_lamports: u64,
    treasury: Address,
) -> ConfigureOffering {
    ConfigureOffering {
        business: Business {
            total_shares,
            price_per_share_lamports,
            treasury,
            is_listed: false,
            ..c.business
        },
        ..c
    }
}

/// Sets the number of shares, their price and the treasury of the caller's
/// business. The business is left (or becomes) unlisted.
pub fn configure_offering(
    ctx: &mut ConfigureOffering,
    total_shares: u64,
    price_per_share_lamports: u64,
    treasury: Address,
) -> (r: Result<(), Error>)
    ensures
        r == result_of(configure_error(*old(ctx), total_shares, price_per_share_lamports)),
        r is Err ==> *final(ctx) == *old(ctx),
        r is Ok ==> *final(ctx) == after_configure(
            *old(ctx),
            total_shares,
            price_per_share_lamports,
            treasury,
        ),
{
    if ctx.business.owner != ctx.owner {
        return Err(Error::Localshare(LocalshareError::InvalidBusinessOwner));
    }
    if total_shares == 0 {
        return Err(Error::Localshare(LocalshareError::InvalidShareAmount));
    }
    if price_per_share_lamports == 0 {
        return Err(Error::Localshare(LocalshareError::InvalidPrice));
    }
    ctx.business.total_shares = total_shares;
    ctx.business.price_per_share_lamports = price_per_share_lamports;
    ctx.business.treasury = treasury;
    ctx.business.is_listed = false;
    Ok(())
}

/// Accounts of `list_business`.
pub struct ListBusiness {
    pub business: Business,
    pub owner: Address,
}

/// The first check that `list_business(c)` fails, or `None`.
pub open spec fn list_error(c: ListBusiness) -> Option<Error> {
    if c.business.owner != c.owner {
        fail(LocalshareError::InvalidBusinessOwner)
    } else if c.business.total_shares == 0 {
        fail(LocalshareError::InvalidShareAmount)
    } else if c.business.price_per_share_lamports == 0 {
        fail(LocalshareError::InvalidPrice)
    } else if c.business.share_mint.is_zero_spec() {
        fail(LocalshareError::InvalidBusiness)
    } else if c.business.is_listed {
        fail(LocalshareError::BusinessAlreadyListed)
    } else {
        None
    }
}

/// The accounts after a successful `list_business`: the business is listed.
pub open spec fn after_list(c: ListBusiness) -> ListBusiness {
    ListBusiness { business: Business { is_listed: true, ..c.business }, ..c }
}

/// Lists a configured business whose share mint exists, opening it to
/// direct purchases.
pub fn list_business(ctx: &mut ListBusiness) -> (r: Result<(), Error>)
    ensures
        r == result_of(list_error(*old(ctx))),
        r is Err ==> *final(ctx) == *old(ctx),
        r is Ok ==> *final(ctx) == after_list(*old(ctx)),
{
    if ctx.business.owner != ctx.owner {
        return Err(Error::Localshare(LocalshareError::InvalidBusinessOwner));
    }
    if ctx.business.total_shares == 0 {
        return Err(Error::Localshare(LocalshareError::InvalidShareAmount));
    }
    if ctx.business.price_per_share_lamports == 0 {
        return Err(Error::Localshare(LocalshareError::InvalidPrice));
    }
    if ctx.business.share_mint.is_zero() {
        return Err(Error::Localshare(LocalshareError::InvalidBusiness));
    }
    if ctx.business.is_listed {
        return Err(Error::Localshare(LocalshareError::BusinessAlreadyListed));
    }
    ctx.business.is_listed = true;
    Ok(())
}

} // verus!
