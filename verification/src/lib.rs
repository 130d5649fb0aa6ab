//! An escrow marketplace engine for unique, indivisible assets on a shared
//! ledger.
//!
//! An operator founds a marketplace under a name and sets its fee. A seller
//! lists an asset by moving it into a vault that no person controls: the
//! vault belongs to the listing's own address, which derives from the
//! marketplace and the asset. A buyer settles the sale in one transaction,
//! or the seller takes the asset back.
//!
//! The engine decides; the ledger acts. Every operation takes a snapshot of
//! the accounts it declares and checks it. Where it agrees, it changes the
//! snapshot to what the accounts are to be afterwards, a record written, a
//! vault opened or closed, and answers with the calls that the host has to
//! make, in order and as one indivisible transaction. Where it refuses, the
//! snapshot stays as it was. Nothing here moves value by itself: balances,
//! signatures, the allocation of accounts and atomicity belong to the host.
//!
//! - [`address`]: addresses and their derivation from seeds.
//! - [`accounts`]: the snapshots of accounts.
//! - [`state`]: the two records, the marketplace's registry and the listing.
//! - [`host`]: the calls asked of the host, and what a plan of them moves.
//! - [`instructions`]: the four operations.
//! - [`laws`]: what holds of the operations together.
pub mod accounts;
pub mod address;
pub mod error;
pub mod host;
pub mod instructions;
pub mod laws;
pub mod state;

pub use accounts::{Account, Collection, Mint, Slot, TokenAccount};
pub use address::Address;
pub use error::{AccountError, MarketplaceError, Rejection};
pub use host::{HostCall, HostCallView, Instruction};
pub use state::{Listing, Marketplace, MarketplaceView};
pub use instructions::{
    delist, init_marketplace, list, purchase, Delist, Initialize, InitializeBumps, List,
    ListBumps, Purchase,
};
