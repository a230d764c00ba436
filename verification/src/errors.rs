//! The error taxonomy of the library: immediate rejections (not found,
//! validation, insufficient inventory, resale not allowed) and failures
//! surfaced from the payment and minting capabilities.

use vstd::prelude::*;
use vstd::string::StringExecFns;

verus! {

/// Every way a ticketing operation can fail.
///
/// Not-found and validation errors are rejected before any state changes.
/// `PaymentFailure` and `ExternalServiceError` surface a capability failure;
/// the operations' contracts state that no partial work remains visible when
/// one of them is returned.
#[derive(Debug)]
pub enum TicketError {
    /// No event with the given id is in the catalog.
    EventNotFound(u128),
    /// The event exists but has no ticket type with the given id.
    TicketTypeNotFound(u128),
    /// No ticket with the given id is in the ledger.
    TicketNotFound(u128),
    /// No resale listing with the given id exists.
    ListingNotFound(u128),
    /// Fewer tickets remain than the request asks for.
    InsufficientInventory,
    /// The ticket's resale flag forbids listing it.
    ResaleNotAllowed,
    /// The payment gateway declined or could not complete the transfer.
    PaymentFailure,
    /// A minting or platform-sync backend failed; the message is the
    /// backend's own.
    ExternalServiceError(String),
    /// The request itself is malformed (for example, zero quantity) or names
    /// a listing that is no longer active.
    ValidationError,
}

impl TicketError {
    /// A short stable label for each variant, for callers that log or print.
    pub fn label(&self) -> String {
        match self {
            TicketError::EventNotFound(_) => String::from_str("event not found"),
            TicketError::TicketTypeNotFound(_) => String::from_str("ticket type not found"),
            TicketError::TicketNotFound(_) => String::from_str("ticket not found"),
            TicketError::ListingNotFound(_) => String::from_str("listing not found"),
            TicketError::InsufficientInventory => String::from_str("insufficient inventory"),
            TicketError::ResaleNotAllowed => String::from_str("resale not allowed"),
            TicketError::PaymentFailure => String::from_str("payment failure"),
            TicketError::ExternalServiceError(_) => String::from_str("external service error"),
            TicketError::ValidationError => String::from_str("validation error"),
        }
    }
}

} // verus!
