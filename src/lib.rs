//! Verified core of a local-business share marketplace: account records,
//! the registration and listing lifecycle, the derivation of program-owned
//! addresses, and the two purchase protocols (direct from a business's share
//! vault, and from an escrow offering).
//!
//! Every instruction takes the accounts it reads and writes as plain values,
//! checks everything first and then applies all of its effects, or returns
//! an error and leaves the accounts exactly as they were.
pub mod address;
pub mod state;
pub mod ledger;
pub mod purchase;
pub mod offering;
pub mod registry;
pub mod share_mint;
pub mod config;
pub mod laws;

pub use address::Address;
pub use config::{init_config, InitConfig};
pub use offering::{buy_shares_from_offering, create_offering, BuyShares, CreateOffering};
pub use purchase::{buy_shares, BuySharesFromBusiness};
pub use registry::{
    configure_offering, list_business, register_business, ConfigureOffering, ListBusiness,
    RegisterBusiness,
};
pub use share_mint::{init_share_mint, InitShareMint};
pub use state::{
    Business, Config, Error, LocalshareError, Mint, MintAuthority, Offering, ShareMintAuthority,
    TokenAccount,
};
