//! The records that the engine keeps on the ledger.
pub mod listing;
pub mod marketplace;

pub use listing::Listing;
pub use marketplace::{Marketplace, MarketplaceView};
