//! The token-ledger and currency-ledger legs that the instructions stage:
//! balances are checked and computed here, and only written once every leg
//! of an instruction is known to succeed.
use vstd::prelude::*;

use crate::address::Address;
use crate::state::TokenAccount;

verus! {

/// Balance of an associated token account that may not exist yet.
pub open spec fn held(acc: Option<TokenAccount>) -> u64 {
    match acc {
        Some(a) => a.amount,
        None => 0,
    }
}

/// An associated token account that either does not exist yet, or holds
/// `mint` and is controlled by `owner`.
pub open spec fn fits_associated(acc: Option<TokenAccount>, mint: Address, owner: Address) -> bool {
    match acc {
        Some(a) => a.mint == mint && a.owner == owner,
        None => true,
    }
}

/// The associated token account of `owner` for `mint` after `amount` more
/// tokens were credited to it (it is created if missing).
pub open spec fn credited(acc: Option<TokenAccount>, mint: Address, owner: Address, amount: u64) -> TokenAccount {
    TokenAccount { mint, owner, amount: (held(acc) + amount) as u64 }
}

/// Whether `a + b` fits in a `u64`.
pub open spec fn fits_u64(a: u64, b: u64) -> bool {
    a + b <= u64::MAX
}

pub fn held_amount(acc: &Option<TokenAccount>) -> (r: u64)
    ensures
        r == held(*acc),
{
    match acc {
        Some(a) => a.amount,
        None => 0,
    }
}

pub fn is_associated(acc: &Option<TokenAccount>, mint: &Address, owner: &Address) -> (r: bool)
    ensures
        r == fits_associated(*acc, *mint, *owner),
{
    match acc {
        Some(a) => a.mint == *mint && a.owner == *owner,
        None => true,
    }
}

/// Whether crediting `amount` to a balance of `balance` keeps it in range.
pub fn can_credit(balance: u64, amount: u64) -> (r: bool)
    ensures
        r == fits_u64(balance, amount),
{
    balance.checked_add(amount).is_some()
}

} // verus!
