//! The four operations, each with the accounts that it declares.
pub mod delist;
pub mod initialize;
pub mod list;
pub mod purchase;

pub use delist::{delist, Delist};
pub use initialize::{init_marketplace, Initialize, InitializeBumps};
pub use list::{list, List, ListBumps};
pub use purchase::{purchase, Purchase};
