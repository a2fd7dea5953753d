//! The protocol's one global configuration record.
use vstd::prelude::*;

use crate::address::Address;
use crate::state::{result_of, Config, Error};

verus! {

/// Relies on `solana_program::system_program::ID`, the identity of the
/// native-currency program, declared as the base58 string of 32 ones, which
/// is 32 zero bytes.
#[verifier::external_body]
fn system_program_id() -> (r: Address)
    ensures
        r.is_zero_spec(),
{
    Address { bytes: anchor_lang::solana_program::system_program::ID.to_bytes() }
}

/// Accounts of `init_config`.
pub struct InitConfig {
    /// The configuration record; `None` until it is created.
    pub config: Option<Config>,
    /// Disambiguation byte of the configuration's address.
    pub config_bump: u8,
    /// The caller, who becomes the administrator.
    pub admin: Address,
}

/// The first check that `init_config(c)` fails, or `None`.
pub open spec fn init_config_error(c: InitConfig) -> Option<Error> {
    if c.config is Some {
        Some(Error::AccountInUse)
    } else {
        None
    }
}

/// Creates the configuration: the caller is the administrator and the native
/// currency is the payment currency. Fails if it exists already.
pub fn init_config(ctx: &mut InitConfig) -> (r: Result<(), Error>)
    ensures
        r == result_of(init_config_error(*old(ctx))),
        r is Err ==> *final(ctx) == *old(ctx),
        r is Ok ==> final(ctx).config is Some && final(ctx).admin == old(ctx).admin
            && final(ctx).config_bump == old(ctx).config_bump,
        r is Ok ==> final(ctx).config->0.admin == old(ctx).admin,
        r is Ok ==> final(ctx).config->0.payment_mint.is_zero_spec(),
        r is Ok ==> final(ctx).config->0.bump == old(ctx).config_bump,
{
    if ctx.config.is_some() {
        return Err(Error::AccountInUse);
    }
    let payment_mint = system_program_id();
    ctx.config = Some(Config { admin: ctx.admin, payment_mint, bump: ctx.config_bump });
    Ok(())
}

} // verus!
