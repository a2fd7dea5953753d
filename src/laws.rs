//! Properties that hold across instructions and across sequences of them.
use vstd::prelude::*;

use crate::address::Address;
use crate::ledger::held;
use crate::offering::{
    after_buy_from_offering, after_create_offering, buy_from_offering_error, create_offering_error,
    offering_accounts_error, BuyShares, CreateOffering,
};
use crate::purchase::{
    after_buy_shares, buy_accounts_error, buy_shares_error, BuySharesFromBusiness,
};
use crate::registry::{
    after_configure, after_list, after_register, list_error, register_error, valid_name, ConfigureOffering,
    ListBusiness, RegisterBusiness,
};
use crate::share_mint::{after_init_share_mint, init_share_mint_error, InitShareMint};
use crate::state::{fail, Business, LocalshareError, TokenAccount};

verus! {

/// One purchase in a run: who buys, the buyer's balance and share holding
/// at that moment, and how many shares are bought.
pub struct PurchaseOrder {
    pub buyer: Address,
    pub buyer_lamports: u64,
    pub holding: Option<TokenAccount>,
    pub amount: u64,
}

/// Sum of the amounts of a run of purchases.
pub open spec fn shares_ordered(orders: Seq<PurchaseOrder>) -> int
    decreases orders.len(),
{
    if orders.len() == 0 {
        0
    } else {
        orders[0].amount + shares_ordered(orders.drop_first())
    }
}

/// The direct-purchase accounts `c` with the buyer side taken from `o`.
pub open spec fn placed(c: BuySharesFromBusiness, o: PurchaseOrder) -> BuySharesFromBusiness {
    BuySharesFromBusiness {
        buyer: o.buyer,
        buyer_lamports: o.buyer_lamports,
        buyer_shares_ata: o.holding,
        ..c
    }
}

/// Whether each direct purchase of `orders`, made in turn against the same
/// business, vault and treasury, succeeds.
pub open spec fn purchases_succeed(c: BuySharesFromBusiness, orders: Seq<PurchaseOrder>) -> bool
    decreases orders.len(),
{
    orders.len() == 0 || (buy_shares_error(placed(c, orders[0]), orders[0].amount) is None
        && purchases_succeed(
        after_buy_shares(placed(c, orders[0]), orders[0].amount),
        orders.drop_first(),
    ))
}

/// The accounts after the direct purchases of `orders`, made in turn.
pub open spec fn after_purchases(c: BuySharesFromBusiness, orders: Seq<PurchaseOrder>) -> BuySharesFromBusiness
    decreases orders.len(),
{
    if orders.len() == 0 {
        c
    } else {
        after_purchases(
            after_buy_shares(placed(c, orders[0]), orders[0].amount),
            orders.drop_first(),
        )
    }
}

/// The offering-purchase accounts `c` with the buyer side taken from `o`.
pub open spec fn placed_on_offering(c: BuyShares, o: PurchaseOrder) -> BuyShares {
    BuyShares {
        buyer: o.buyer,
        buyer_lamports: o.buyer_lamports,
        buyer_token_account: o.holding,
        ..c
    }
}

/// Whether each purchase of `orders` from the offering, made in turn, succeeds.
pub open spec fn offering_purchases_succeed(c: BuyShares, orders: Seq<PurchaseOrder>) -> bool
    decreases orders.len(),
{
    orders.len() == 0 || (buy_from_offering_error(placed_on_offering(c, orders[0]), orders[0].amount)
        is None && offering_purchases_succeed(
        after_buy_from_offering(placed_on_offering(c, orders[0]), orders[0].amount),
        orders.drop_first(),
    ))
}

/// The accounts after the purchases of `orders` from the offering, made in turn.
pub open spec fn after_offering_purchases(c: BuyShares, orders: Seq<PurchaseOrder>) -> BuyShares
    decreases orders.len(),
{
    if orders.len() == 0 {
        c
    } else {
        after_offering_purchases(
            after_buy_from_offering(placed_on_offering(c, orders[0]), orders[0].amount),
            orders.drop_first(),
        )
    }
}

/// A registered name is 1 to 50 characters long, and no later instruction
/// (configuring, minting, listing, buying) changes it.
pub proof fn lemma_name_stays_valid(
    reg: RegisterBusiness,
    name: String,
    conf: ConfigureOffering,
    total_shares: u64,
    price: u64,
    treasury: Address,
    mint: InitShareMint,
    list: ListBusiness,
    buy: BuySharesFromBusiness,
    amount: u64,
)
    ensures
        register_error(reg, name@) is None ==> valid_name(after_register(reg, name).business.name@),
        after_configure(conf, total_shares, price, treasury).business.name == conf.business.name,
        after_init_share_mint(mint).business.name == mint.business.name,
        after_list(list).business.name == list.business.name,
        after_buy_shares(buy, amount).business.name == buy.business.name,
{
}

/// Vault conservation: right after the share mint is initialized the vault
/// holds `total_shares`; from then on, over any run of successful direct
/// purchases by any buyers, the vault balance plus the shares sold is the
/// vault balance at the start, and the business record is untouched.
pub proof fn lemma_vault_conservation(
    mint: InitShareMint,
    c: BuySharesFromBusiness,
    orders: Seq<PurchaseOrder>,
)
    requires
        purchases_succeed(c, orders),
    ensures
        init_share_mint_error(mint) is None ==> after_init_share_mint(mint).shares_vault->0.amount
            == mint.business.total_shares,
        after_purchases(c, orders).shares_vault.amount + shares_ordered(orders)
            == c.shares_vault.amount,
        after_purchases(c, orders).business == c.business,
    decreases orders.len(),
{
    if orders.len() > 0 {
        lemma_vault_conservation(
            mint,
            after_buy_shares(placed(c, orders[0]), orders[0].amount),
            orders.drop_first(),
        );
    }
}

/// A single successful direct purchase moves exactly `amount` shares from
/// the vault to the buyer and exactly `price × amount` from the buyer to the
/// treasury.
pub proof fn lemma_purchase_moves_shares_and_payment(c: BuySharesFromBusiness, amount: u64)
    requires
        buy_shares_error(c, amount) is None,
    ensures
        after_buy_shares(c, amount).shares_vault.amount + amount == c.shares_vault.amount,
        held(after_buy_shares(c, amount).buyer_shares_ata) == held(c.buyer_shares_ata) + amount,
        after_buy_shares(c, amount).buyer_lamports + c.business.price_per_share_lamports * amount
            == c.buyer_lamports,
        after_buy_shares(c, amount).treasury_lamports == c.treasury_lamports
            + c.business.price_per_share_lamports * amount,
{
}

/// Offering conservation: a new offering has `initial_shares` remaining and
/// exactly that many in its escrow vault; over
/// any run of successful purchases from it by any buyers, the shares
/// remaining plus the shares bought is what remained at the start, and the
/// escrow vault gives up exactly the shares bought.
pub proof fn lemma_offering_conservation(
    create: CreateOffering,
    price: u64,
    initial_shares: u64,
    c: BuyShares,
    orders: Seq<PurchaseOrder>,
)
    requires
        offering_purchases_succeed(c, orders),
    ensures
        create_offering_error(create, price, initial_shares) is None ==> after_create_offering(
            create,
            price,
            initial_shares,
        ).offering->0.remaining_shares == initial_shares,
        create_offering_error(create, price, initial_shares) is None ==> after_create_offering(
            create,
            price,
            initial_shares,
        ).offering_vault->0.amount == initial_shares,
        after_offering_purchases(c, orders).offering.remaining_shares + shares_ordered(orders)
            == c.offering.remaining_shares,
        after_offering_purchases(c, orders).offering_vault.amount + shares_ordered(orders)
            == c.offering_vault.amount,
    decreases orders.len(),
{
    if orders.len() > 0 {
        lemma_offering_conservation(
            create,
            price,
            initial_shares,
            after_buy_from_offering(placed_on_offering(c, orders[0]), orders[0].amount),
            orders.drop_first(),
        );
    }
}

/// Once listed, a business stays listed through renaming, share-mint
/// initialization, listing attempts and purchases. (Re-configuring the
/// offering is the one instruction that unlists.)
pub proof fn lemma_listing_is_kept(
    reg: RegisterBusiness,
    name: String,
    mint: InitShareMint,
    list: ListBusiness,
    buy: BuySharesFromBusiness,
    amount: u64,
)
    requires
        reg.business.is_listed && !reg.business.owner.is_zero_spec(),
        mint.business.is_listed,
        list.business.is_listed,
        buy.business.is_listed,
    ensures
        after_register(reg, name).business.is_listed,
        after_init_share_mint(mint).business.is_listed,
        list_error(list) is Some,
        after_buy_shares(buy, amount).business.is_listed,
{
}

/// An exhausted (inactive) offering rejects every purchase with
/// `OfferingNotActive` once its accounts check out, cannot be created anew,
/// and a purchase that empties an offering leaves it inactive.
pub proof fn lemma_inactive_offering_stays_inactive(
    c: BuyShares,
    amount: u64,
    create: CreateOffering,
    price: u64,
    initial_shares: u64,
)
    ensures
        !c.offering.is_active ==> buy_from_offering_error(c, amount) is Some,
        !c.offering.is_active && offering_accounts_error(c) is None ==> buy_from_offering_error(
            c,
            amount,
        ) == fail(LocalshareError::OfferingNotActive),
        buy_from_offering_error(c, amount) is None && after_buy_from_offering(
            c,
            amount,
        ).offering.remaining_shares == 0 ==> !after_buy_from_offering(c, amount).offering.is_active,
        create.offering is Some ==> create_offering_error(create, price, initial_shares) is Some,
{
}

/// A purchase whose cost `price × amount` exceeds `u64::MAX` never succeeds,
/// on either path; once the accounts check out, the amount is positive and
/// available, the failure is `MathOverflow`.
pub proof fn lemma_overflowing_cost_fails(c: BuySharesFromBusiness, o: BuyShares, amount: u64)
    ensures
        c.business.price_per_share_lamports * amount > u64::MAX ==> buy_shares_error(
            c,
            amount,
        ) is Some,
        c.business.price_per_share_lamports * amount > u64::MAX && buy_accounts_error(c) is None
            && c.business.is_listed && amount <= c.shares_vault.amount ==> buy_shares_error(
            c,
            amount,
        ) == fail(LocalshareError::MathOverflow),
        o.offering.price_per_share * amount > u64::MAX ==> buy_from_offering_error(o, amount) is Some,
        o.offering.price_per_share * amount > u64::MAX && offering_accounts_error(o) is None
            && o.offering.is_active && amount <= o.offering.remaining_shares && amount
            <= o.offering_vault.amount ==> buy_from_offering_error(o, amount) == fail(
            LocalshareError::MathOverflow,
        ),
{
    assert(c.business.price_per_share_lamports * amount > u64::MAX ==> amount != 0) by (
    nonlinear_arith);
    assert(o.offering.price_per_share * amount > u64::MAX ==> amount != 0) by (nonlinear_arith);
}

/// A purchase of more shares than the vault holds never succeeds, so neither
/// leg moves anything; once the accounts check out and the business is listed
/// (the offering active), the failure is `InsufficientShares`.
pub proof fn lemma_short_vault_fails(c: BuySharesFromBusiness, o: BuyShares, amount: u64)
    ensures
        amount > c.shares_vault.amount ==> buy_shares_error(c, amount) is Some,
        amount > c.shares_vault.amount && buy_accounts_error(c) is None && c.business.is_listed
            ==> buy_shares_error(c, amount) == fail(LocalshareError::InsufficientShares),
        amount > o.offering_vault.amount ==> buy_from_offering_error(o, amount) is Some,
        amount > o.offering_vault.amount && offering_accounts_error(o) is None
            && o.offering.is_active ==> buy_from_offering_error(o, amount) == fail(
            LocalshareError::InsufficientShares,
        ),
{
}

/// Registering again under an already-registered owner changes the name and
/// nothing else: shares, price, treasury, share mint and listing are kept.
pub proof fn lemma_reregistration_renames_only(c: RegisterBusiness, name: String)
    requires
        !c.business.owner.is_zero_spec(),
        c.business.owner == c.owner,
        valid_name(name@),
    ensures
        register_error(c, name@) is None,
        after_register(c, name).business == (Business { name, ..c.business }),
        after_register(c, name).business.total_shares == c.business.total_shares,
        after_register(c, name).business.price_per_share_lamports
            == c.business.price_per_share_lamports,
        after_register(c, name).business.treasury == c.business.treasury,
        after_register(c, name).business.share_mint == c.business.share_mint,
        after_register(c, name).business.is_listed == c.business.is_listed,
{
}

} // verus!
