//! Donation escrow and small storage contracts, with their state held in
//! explicit structs and the token ledger they move value on.
pub mod accounting;
pub mod address;
pub mod crowdfunding;
pub mod increment;
pub mod ledger;
pub mod simple_string;
