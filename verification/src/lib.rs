//! A ticket marketplace ledger.
//!
//! Organizers describe events, sellers put tickets in escrow under a listing,
//! and buyers settle a listing in one step that pays the seller, the
//! marketplace treasury and a loyalty reward. Every record lives at an address
//! derived from a namespace tag and key material, and every operation either
//! applies in full or leaves the ledger as it was.

pub mod address;
pub mod error;
pub mod event;
pub mod fees;
pub mod laws;
pub mod ledger;
pub mod market;
pub mod model;
pub mod records;
pub mod store;
