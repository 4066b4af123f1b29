pub mod admin;
pub mod error;
pub mod label;
pub mod ledger;
pub mod mint;
pub mod registry;
pub mod state;
pub mod store;
pub mod verification;
