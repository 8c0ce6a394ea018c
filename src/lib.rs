//! An office-rights ledger: offices are sold through Dutch auctions, kept
//! through weekly tax payments and revoked by the administrator once expired.
//!
//! The ledger's state and every decision about it live here. What the host
//! environment does (running the auction, moving tokens, reading the clock,
//! resolving who signed a call) comes in as plain values, and what the host
//! has to do next comes back as plain values.

pub mod contract;
pub mod laws;
pub mod nonces;
pub mod state;
pub mod types;

pub use contract::PauletteContract;
pub use types::{
    Address, AuctionInit, Auth, Bid, Config, Error, Identifier, Office, Signature, TaxTransfer,
    TimeStamp, RENEWAL_PERIOD,
};
