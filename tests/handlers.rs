use localshare::{
    buy_shares, buy_shares_from_offering, configure_offering, create_offering, init_config,
    init_share_mint, list_business, register_business, Address, Business, BuyShares,
    BuySharesFromBusiness, Config, ConfigureOffering, CreateOffering, Error, InitConfig,
    InitShareMint, ListBusiness, LocalshareError, Mint, Offering, RegisterBusiness,
    ShareMintAuthority, TokenAccount,
};

fn addr(n: u8) -> Address {
    Address::new([n; 32])
}

fn program_error(e: LocalshareError) -> Result<(), Error> {
    Err(Error::Localshare(e))
}

fn registered(owner: u8) -> Business {
    let mut reg = RegisterBusiness { business: Business::default(), business_bump: 7, owner: addr(owner) };
    assert_eq!(register_business(&mut reg, String::from("Shop")), Ok(()));
    reg.business
}

fn listed_business() -> Business {
    let mut b = registered(1);
    b.total_shares = 50;
    b.price_per_share_lamports = 10;
    b.treasury = addr(2);
    b.share_mint = addr(5);
    b.is_listed = true;
    b
}

fn direct_purchase() -> BuySharesFromBusiness {
    BuySharesFromBusiness {
        buyer: addr(3),
        buyer_lamports: 1_000,
        business_key: addr(4),
        business: listed_business(),
        share_mint: addr(5),
        shares_vault: TokenAccount { mint: addr(5), owner: addr(6), amount: 50 },
        share_mint_authority_key: addr(6),
        share_mint_authority: ShareMintAuthority { business: addr(4), bump: 1 },
        treasury: addr(2),
        treasury_lamports: 0,
        buyer_shares_ata: None,
    }
}

fn offering_purchase() -> BuyShares {
    BuyShares {
        offering_key: addr(8),
        offering: Offering {
            business: addr(4),
            share_mint: addr(5),
            payment_mint: Address::zero(),
            price_per_share: 10,
            remaining_shares: 20,
            is_active: true,
            bump: 1,
        },
        business_key: addr(4),
        business: listed_business(),
        mint: addr(5),
        offering_vault: TokenAccount { mint: addr(5), owner: addr(8), amount: 20 },
        buyer_token_account: None,
        owner: addr(1),
        owner_lamports: 0,
        buyer: addr(3),
        buyer_lamports: 1_000,
    }
}

#[test]
fn init_config_sets_admin_and_native_currency() {
    let mut ctx = InitConfig { config: None, config_bump: 255, admin: addr(9) };
    assert_eq!(init_config(&mut ctx), Ok(()));
    let config = ctx.config.unwrap();
    assert_eq!(config.admin, addr(9));
    assert_eq!(config.payment_mint, Address::new([0; 32]));
    assert!(config.payment_mint.is_zero());
    assert_eq!(config.bump, 255);
}

#[test]
fn init_config_twice_fails() {
    let existing = Config { admin: addr(9), payment_mint: Address::zero(), bump: 255 };
    let mut ctx = InitConfig { config: Some(existing), config_bump: 1, admin: addr(10) };
    assert_eq!(init_config(&mut ctx), Err(Error::AccountInUse));
    assert_eq!(ctx.config.unwrap().admin, addr(9));
}

#[test]
fn register_new_business_fills_defaults() {
    let mut reg = RegisterBusiness { business: Business::default(), business_bump: 200, owner: addr(1) };
    assert_eq!(register_business(&mut reg, String::from("Bakery")), Ok(()));
    let b = reg.business;
    assert_eq!(b.owner, addr(1));
    assert_eq!(b.name, "Bakery");
    assert!(b.share_mint.is_zero());
    assert_eq!(b.total_shares, 0);
    assert_eq!(b.price_per_share_lamports, 0);
    assert_eq!(b.treasury, addr(1));
    assert!(!b.is_listed);
    assert_eq!(b.bump, 200);
}

#[test]
fn register_rejects_empty_name() {
    let mut reg = RegisterBusiness { business: Business::default(), business_bump: 1, owner: addr(1) };
    assert_eq!(register_business(&mut reg, String::new()), program_error(LocalshareError::EmptyBusinessName));
    assert!(reg.business.owner.is_zero());
}

#[test]
fn register_name_length_bounds() {
    let mut reg = RegisterBusiness { business: Business::default(), business_bump: 1, owner: addr(1) };
    assert_eq!(
        register_business(&mut reg, "a".repeat(51)),
        program_error(LocalshareError::BusinessNameTooLong)
    );
    assert!(reg.business.owner.is_zero());
    assert_eq!(register_business(&mut reg, "a".repeat(50)), Ok(()));
    assert_eq!(reg.business.name.len(), 50);
}

#[test]
fn register_counts_characters_not_bytes() {
    let mut reg = RegisterBusiness { business: Business::default(), business_bump: 1, owner: addr(1) };
    assert_eq!(register_business(&mut reg, "é".repeat(50)), Ok(()));
    assert_eq!(reg.business.name.chars().count(), 50);
    assert_eq!(
        register_business(&mut reg, "é".repeat(51)),
        program_error(LocalshareError::BusinessNameTooLong)
    );
}

#[test]
fn register_by_other_owner_fails() {
    let business = registered(1);
    let mut reg = RegisterBusiness { business, business_bump: 7, owner: addr(2) };
    assert_eq!(
        register_business(&mut reg, String::from("Taken")),
        program_error(LocalshareError::InvalidBusinessOwner)
    );
    assert_eq!(reg.business.name, "Shop");
}

#[test]
fn reregistering_keeps_listing() {
    let business = listed_business();
    let mut reg = RegisterBusiness { business, business_bump: 7, owner: addr(1) };
    assert_eq!(register_business(&mut reg, String::from("Renamed")), Ok(()));
    assert!(reg.business.is_listed);
    assert_eq!(reg.business.name, "Renamed");
}

#[test]
fn configure_validates_and_unlists() {
    let mut conf = ConfigureOffering { business: listed_business(), owner: addr(1) };
    assert_eq!(
        configure_offering(&mut conf, 0, 5, addr(2)),
        program_error(LocalshareError::InvalidShareAmount)
    );
    assert_eq!(configure_offering(&mut conf, 5, 0, addr(2)), program_error(LocalshareError::InvalidPrice));
    assert!(conf.business.is_listed);
    assert_eq!(configure_offering(&mut conf, 7, 3, addr(11)), Ok(()));
    assert_eq!(conf.business.total_shares, 7);
    assert_eq!(conf.business.price_per_share_lamports, 3);
    assert_eq!(conf.business.treasury, addr(11));
    assert!(!conf.business.is_listed);
}

#[test]
fn configure_by_other_owner_fails() {
    let mut conf = ConfigureOffering { business: registered(1), owner: addr(2) };
    assert_eq!(
        configure_offering(&mut conf, 5, 5, addr(2)),
        program_error(LocalshareError::InvalidBusinessOwner)
    );
    assert_eq!(conf.business.total_shares, 0);
}

#[test]
fn init_share_mint_requires_shares() {
    let mut init = InitShareMint {
        business_key: addr(4),
        business: registered(1),
        owner: addr(1),
        share_mint_key: addr(5),
        share_mint: None,
        share_mint_authority_key: addr(6),
        share_mint_authority: None,
        share_mint_authority_bump: 3,
        shares_vault: None,
    };
    assert_eq!(init_share_mint(&mut init), program_error(LocalshareError::InvalidShareAmount));
    assert!(init.share_mint.is_none());
    init.business.total_shares = 12;
    assert_eq!(init_share_mint(&mut init), Ok(()));
    let mint = init.share_mint.unwrap();
    assert_eq!(mint.supply, 12);
    assert_eq!(mint.decimals, 0);
    assert_eq!(mint.mint_authority, addr(6));
    let authority = init.share_mint_authority.unwrap();
    assert_eq!(authority.business, addr(4));
    assert_eq!(authority.bump, 3);
    assert_eq!(init.shares_vault.unwrap().amount, 12);
    assert_eq!(init.business.share_mint, addr(5));
    assert_eq!(init_share_mint(&mut init), Err(Error::AccountInUse));
}

#[test]
fn init_share_mint_existing_mint_fails() {
    let mut business = registered(1);
    business.total_shares = 3;
    let mut init = InitShareMint {
        business_key: addr(4),
        business,
        owner: addr(1),
        share_mint_key: addr(5),
        share_mint: Some(Mint { supply: 0, decimals: 0, mint_authority: addr(6) }),
        share_mint_authority_key: addr(6),
        share_mint_authority: None,
        share_mint_authority_bump: 3,
        shares_vault: None,
    };
    assert_eq!(init_share_mint(&mut init), Err(Error::AccountInUse));
    assert!(init.business.share_mint.is_zero());
    init.owner = addr(2);
    assert_eq!(init_share_mint(&mut init), program_error(LocalshareError::InvalidBusinessOwner));
}

#[test]
fn list_checks_in_order() {
    let mut list = ListBusiness { business: registered(1), owner: addr(1) };
    assert_eq!(list_business(&mut list), program_error(LocalshareError::InvalidShareAmount));
    list.business.total_shares = 10;
    assert_eq!(list_business(&mut list), program_error(LocalshareError::InvalidPrice));
    list.business.price_per_share_lamports = 10;
    assert_eq!(list_business(&mut list), program_error(LocalshareError::InvalidBusiness));
    list.business.share_mint = addr(5);
    assert_eq!(list_business(&mut list), Ok(()));
    assert!(list.business.is_listed);
    assert_eq!(list_business(&mut list), program_error(LocalshareError::BusinessAlreadyListed));
    assert!(list.business.is_listed);
    list.owner = addr(2);
    assert_eq!(list_business(&mut list), program_error(LocalshareError::InvalidBusinessOwner));
}

#[test]
fn buy_from_unlisted_business_fails() {
    let mut buy = direct_purchase();
    buy.business.is_listed = false;
    assert_eq!(buy_shares(&mut buy, 1), program_error(LocalshareError::OfferingNotActive));
    assert_eq!(buy.shares_vault.amount, 50);
}

#[test]
fn buy_with_too_few_lamports_moves_nothing() {
    let mut buy = direct_purchase();
    buy.buyer_lamports = 99;
    assert_eq!(buy_shares(&mut buy, 10), Err(Error::InsufficientLamports));
    assert_eq!(buy.buyer_lamports, 99);
    assert_eq!(buy.treasury_lamports, 0);
    assert_eq!(buy.shares_vault.amount, 50);
}

#[test]
fn buy_with_treasury_overflow_fails() {
    let mut buy = direct_purchase();
    buy.treasury_lamports = u64::MAX - 5;
    assert_eq!(buy_shares(&mut buy, 1), Err(Error::BalanceOverflow));
    assert_eq!(buy.buyer_lamports, 1_000);
}

#[test]
fn buy_with_mismatched_accounts_fails() {
    let mut buy = direct_purchase();
    buy.treasury = addr(12);
    assert_eq!(buy_shares(&mut buy, 1), program_error(LocalshareError::InvalidBusiness));
    let mut buy = direct_purchase();
    buy.shares_vault.mint = addr(12);
    assert_eq!(buy_shares(&mut buy, 1), program_error(LocalshareError::InvalidBusiness));
    let mut buy = direct_purchase();
    buy.share_mint_authority.business = addr(12);
    assert_eq!(buy_shares(&mut buy, 1), program_error(LocalshareError::InvalidBusiness));
    let mut buy = direct_purchase();
    buy.buyer_shares_ata = Some(TokenAccount { mint: addr(5), owner: addr(12), amount: 0 });
    assert_eq!(buy_shares(&mut buy, 1), Err(Error::TokenAccountMismatch));
    let mut buy = direct_purchase();
    buy.shares_vault.owner = addr(12);
    assert_eq!(buy_shares(&mut buy, 1), Err(Error::TokenAccountMismatch));
    assert_eq!(buy.buyer_lamports, 1_000);
}

#[test]
fn buy_adds_to_existing_holding() {
    let mut buy = direct_purchase();
    buy.buyer_shares_ata = Some(TokenAccount { mint: addr(5), owner: addr(3), amount: 4 });
    assert_eq!(buy_shares(&mut buy, 6), Ok(()));
    assert_eq!(buy.buyer_shares_ata.unwrap().amount, 10);
    assert_eq!(buy.treasury_lamports, 60);
    assert_eq!(buy.buyer_lamports, 940);
    assert!(buy.business.is_listed);
}

#[test]
fn buy_with_holding_overflow_fails() {
    let mut buy = direct_purchase();
    buy.buyer_shares_ata = Some(TokenAccount { mint: addr(5), owner: addr(3), amount: u64::MAX });
    assert_eq!(buy_shares(&mut buy, 1), Err(Error::BalanceOverflow));
    assert_eq!(buy.treasury_lamports, 0);
}

#[test]
fn offering_purchase_partial_keeps_active() {
    let mut buy = offering_purchase();
    assert_eq!(buy_shares_from_offering(&mut buy, 5), Ok(()));
    assert_eq!(buy.offering.remaining_shares, 15);
    assert!(buy.offering.is_active);
    assert_eq!(buy.owner_lamports, 50);
    assert_eq!(buy.buyer_lamports, 950);
    assert_eq!(buy.offering_vault.amount, 15);
}

#[test]
fn offering_purchase_errors() {
    let mut buy = offering_purchase();
    assert_eq!(buy_shares_from_offering(&mut buy, 0), program_error(LocalshareError::InvalidShareAmount));
    assert_eq!(buy_shares_from_offering(&mut buy, 21), program_error(LocalshareError::InsufficientShares));
    buy.offering_vault.amount = 3;
    assert_eq!(buy_shares_from_offering(&mut buy, 4), program_error(LocalshareError::InsufficientShares));
    let mut buy = offering_purchase();
    buy.offering.business = addr(12);
    assert_eq!(buy_shares_from_offering(&mut buy, 1), program_error(LocalshareError::InvalidBusiness));
    let mut buy = offering_purchase();
    buy.owner = addr(12);
    assert_eq!(buy_shares_from_offering(&mut buy, 1), program_error(LocalshareError::InvalidBusinessOwner));
    let mut buy = offering_purchase();
    buy.buyer_lamports = 5;
    assert_eq!(buy_shares_from_offering(&mut buy, 1), Err(Error::InsufficientLamports));
    assert_eq!(buy.offering.remaining_shares, 20);
}

fn offering_creation() -> CreateOffering {
    let mut business = registered(1);
    business.share_mint = addr(5);
    CreateOffering {
        offering_key: addr(8),
        offering: None,
        offering_bump: 9,
        business_key: addr(4),
        business,
        config: Config { admin: addr(9), payment_mint: Address::zero(), bump: 255 },
        mint: addr(5),
        owner_token_account: TokenAccount { mint: addr(5), owner: addr(1), amount: 10 },
        offering_vault: None,
        owner: addr(1),
    }
}

#[test]
fn create_offering_records_terms() {
    let mut create = offering_creation();
    assert_eq!(create_offering(&mut create, 500, 10), Ok(()));
    let offering = create.offering.unwrap();
    assert_eq!(offering.business, addr(4));
    assert_eq!(offering.share_mint, addr(5));
    assert!(offering.payment_mint.is_zero());
    assert_eq!(offering.price_per_share, 500);
    assert_eq!(offering.bump, 9);
    assert_eq!(create.owner_token_account.amount, 0);
    assert_eq!(create_offering(&mut create, 500, 1), Err(Error::AccountInUse));
}

#[test]
fn create_offering_errors() {
    let mut create = offering_creation();
    assert_eq!(create_offering(&mut create, 0, 1), program_error(LocalshareError::InvalidPrice));
    assert_eq!(create_offering(&mut create, 1, 0), program_error(LocalshareError::InvalidShareAmount));
    assert_eq!(create_offering(&mut create, u64::MAX, 2), program_error(LocalshareError::MathOverflow));
    assert_eq!(create_offering(&mut create, 1, 11), program_error(LocalshareError::InsufficientShares));
    create.mint = addr(12);
    assert_eq!(create_offering(&mut create, 1, 1), program_error(LocalshareError::InvalidBusiness));
    let mut create = offering_creation();
    create.owner_token_account.owner = addr(12);
    assert_eq!(create_offering(&mut create, 1, 1), program_error(LocalshareError::InvalidBusinessOwner));
    let mut create = offering_creation();
    create.offering_vault = Some(TokenAccount { mint: addr(5), owner: addr(12), amount: 0 });
    assert_eq!(create_offering(&mut create, 1, 1), Err(Error::TokenAccountMismatch));
    let mut create = offering_creation();
    create.offering_vault = Some(TokenAccount { mint: addr(5), owner: addr(8), amount: 5 });
    assert_eq!(create_offering(&mut create, 1, 1), Err(Error::AccountInUse));
    assert_eq!(create.offering_vault.unwrap().amount, 5);
    assert!(create.offering.is_none());
    assert_eq!(create.owner_token_account.amount, 10);
}

#[test]
fn error_messages() {
    assert_eq!(LocalshareError::InsufficientShares.message(), "Not enough shares available");
    assert_eq!(LocalshareError::EmptyBusinessName.message(), "Business name cannot be empty");
    assert_eq!(
        LocalshareError::BusinessAlreadyListed.message(),
        "Business is already listed on the marketplace"
    );
}
