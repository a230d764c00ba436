//! The payment capability: a gateway that moves funds between wallets and can
//! reverse a completed transfer, with an in-memory settlement engine used as
//! the native (HKD) implementation.
//!
//! The orchestrator's atomicity contracts are stated over the gateway's log:
//! a failed purchase leaves the log unchanged, and a resale whose token
//! transfer fails leaves exactly one transfer and its reversal.

use vstd::prelude::*;

use crate::errors::TicketError;
use crate::strings::append_id;

verus! {

/// One completed movement of funds, as recorded by a gateway.
pub struct PaymentEntry {
    pub from: String,
    pub to: String,
    /// Amount in minor currency units.
    pub amount: u128,
    pub currency: String,
    /// Free-text reference describing what the transfer paid for.
    pub memo: String,
    /// True when this entry compensates an earlier transfer.
    pub is_reversal: bool,
}

impl Clone for PaymentEntry {
    fn clone(&self) -> (res: Self)
        ensures
            res == *self,
    {
        PaymentEntry {
            from: self.from.clone(),
            to: self.to.clone(),
            amount: self.amount,
            currency: self.currency.clone(),
            memo: self.memo.clone(),
            is_reversal: self.is_reversal,
        }
    }
}

/// The compensating entry for a completed transfer: the same funds moved
/// back.
pub open spec fn reversal_of(e: PaymentEntry) -> PaymentEntry {
    PaymentEntry {
        from: e.to,
        to: e.from,
        amount: e.amount,
        currency: e.currency,
        memo: e.memo,
        is_reversal: true,
    }
}

/// The payment capability consumed by the purchase orchestrator.
///
/// `log()` is the sequence of completed movements; `transfer_ok()` says
/// whether the next transfer will settle. A failed transfer leaves the
/// gateway unchanged; a reversal always settles.
pub trait PaymentGateway: Sized {
    /// Every completed movement of funds, in order.
    spec fn log(&self) -> Seq<PaymentEntry>;

    /// Whether the next transfer will settle.
    spec fn transfer_ok(&self) -> bool;

    /// Moves `amount` from `from` to `to`, returning a transaction
    /// reference, or fails leaving the gateway unchanged.
    fn transfer(
        &mut self,
        from: &String,
        to: &String,
        amount: u128,
        currency: &String,
        memo: &String,
    ) -> (r: Result<String, TicketError>)
        ensures
            r is Ok <==> old(self).transfer_ok(),
            r is Err ==> *final(self) == *old(self) && r == Err::<String, TicketError>(
                TicketError::PaymentFailure,
            ),
            r is Ok ==> final(self).log() == old(self).log().push(
                (PaymentEntry {
                    from: *from,
                    to: *to,
                    amount: amount,
                    currency: *currency,
                    memo: *memo,
                    is_reversal: false,
                }),
            ),
            r is Ok ==> final(self).transfer_ok() == old(self).transfer_ok(),
    ;

    /// Compensates the given completed transfer by moving the funds back.
    /// Reversal is the one operation that cannot fail.
    fn reverse(&mut self, entry: &PaymentEntry)
        ensures
            final(self).log() == old(self).log().push(reversal_of(*entry)),
            final(self).transfer_ok() == old(self).transfer_ok(),
    ;
}

/// An in-memory settlement engine: keeps the full log of movements and can be
/// told to decline transfers, which tests use to exercise the compensation
/// paths.
pub struct MockPaymentGateway {
    /// Every movement completed so far.
    pub entries: Vec<PaymentEntry>,
    /// When true, every transfer is declined (reversals still settle).
    pub fail_transfers: bool,
}

impl MockPaymentGateway {
    /// A fresh engine with an empty log that settles every transfer.
    pub fn new() -> (r: MockPaymentGateway)
        ensures
            r.entries@ == Seq::<PaymentEntry>::empty(),
            !r.fail_transfers,
    {
        MockPaymentGateway { entries: Vec::new(), fail_transfers: false }
    }
}

impl PaymentGateway for MockPaymentGateway {
    open spec fn log(&self) -> Seq<PaymentEntry> {
        self.entries@
    }

    open spec fn transfer_ok(&self) -> bool {
        !self.fail_transfers
    }

    fn transfer(
        &mut self,
        from: &String,
        to: &String,
        amount: u128,
        currency: &String,
        memo: &String,
    ) -> (r: Result<String, TicketError>) {
        if self.fail_transfers {
            return Err(TicketError::PaymentFailure);
        }
        let tx = append_id("tx_", self.entries.len() as u128);
        self.entries.push(
            PaymentEntry {
                from: from.clone(),
                to: to.clone(),
                amount: amount,
                currency: currency.clone(),
                memo: memo.clone(),
                is_reversal: false,
            },
        );
        Ok(tx)
    }

    fn reverse(&mut self, entry: &PaymentEntry) {
        self.entries.push(
            PaymentEntry {
                from: entry.to.clone(),
                to: entry.from.clone(),
                amount: entry.amount,
                currency: entry.currency.clone(),
                memo: entry.memo.clone(),
                is_reversal: true,
            },
        );
    }
}

} // verus!
