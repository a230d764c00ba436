//! An event-ticketing library: an event catalog, a ticket ledger, a resale
//! market, and a purchase orchestrator that enforces the oversell-prevention
//! invariant and transactional issuance.

pub mod errors;
pub mod external_apis;
pub mod nft_service;
pub mod payment;
pub mod strings;
pub mod ticketing_service;
pub mod ticketing;
pub mod wire;
