//! Sales ledger of a point-of-sale back office: transactions recorded with
//! price and name snapshots, and revenue reports derived from them.

pub mod auth;
pub mod dates;
pub mod ids;
pub mod laws;
pub mod ledger;
pub mod listing;
pub mod models;
pub mod reading;
pub mod reports;
pub mod rows;
pub mod search;
