//! Escrow and settlement engine for NFT auctions.
//!
//! The library decides; the host acts. Each operation reads plain account
//! values ([`account::AccountView`]) and either fails with an error, changing
//! nothing, or returns the effects ([`action::Action`]) that the host then
//! carries out in one atomic transaction.
//!
//! - `address`, `pda`: account identities and the seed layouts they derive from.
//! - `token`, `account`: token-account records, ownership and key checks,
//!   account creation and closing.
//! - `trade_state`: the validation rule of orders and the book of open orders.
//! - `escrow`: per-depositor escrow balances and their rent floor.
//! - `royalty`, `execute_sale`: royalties, marketplace fee and settlement.
//! - `house`, `delegation`: the marketplace record and its one auctioneer.
//! - `deposit`, `withdraw`, `cancel`: the escrow and order operations.
//! - `auction`, `auctioneer`: listing rules and the auctioneer's operations.
pub mod account;
pub mod action;
pub mod address;
pub mod auction;
pub mod auctioneer;
pub mod cancel;
pub mod delegation;
pub mod deposit;
pub mod error;
pub mod escrow;
pub mod execute_sale;
pub mod house;
pub mod pda;
pub mod royalty;
pub mod token;
pub mod trade_state;
pub mod withdraw;

pub use address::Address;
pub use error::{AuctionHouseError, AuctioneerError};
