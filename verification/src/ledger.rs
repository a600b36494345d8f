//! The record of what each quote cost and what is credited for it.
//!
//! A record is written when a quote is handed out, before the invoice is
//! returned, and read once when the quote is confirmed as paid. What is
//! credited is the settlement amount of the record, never the amount that was
//! paid on the rail. A confirmed quote without a record credits nothing.

use crate::payment::PaymentError;
use crate::pool::{ConfirmedView, PaymentConfirmed};
use vstd::prelude::*;

verus! {

/// What a quote cost on the rail and what is credited for it.
#[derive(Clone, Copy, Debug, PartialEq, Eq, Structural)]
pub struct QuoteCostRecord {
    /// The amount paid, in the rail's own unit.
    pub cost_native_unit: u64,
    /// The amount to credit, in the settlement unit.
    pub credited_amount: u64,
}

/// The store of records as a map from quote identifiers.
pub type LedgerView = Map<Seq<char>, QuoteCostRecord>;

/// The store after a record was written for a quote.
pub open spec fn ledger_after_write(
    ledger: LedgerView,
    quote_id: Seq<char>,
    record: QuoteCostRecord,
) -> LedgerView {
    ledger.insert(quote_id, record)
}

/// What a read of the store returns for a quote.
pub open spec fn ledger_read(ledger: LedgerView, quote_id: Seq<char>) -> Option<QuoteCostRecord> {
    if ledger.dom().contains(quote_id) {
        Some(ledger[quote_id])
    } else {
        None
    }
}

/// What is credited for a quote confirmed as paid, given what the store holds
/// for it.
pub open spec fn confirmation(quote_id: Seq<char>, record: Option<QuoteCostRecord>) -> Result<
    ConfirmedView,
    PaymentError,
> {
    match record {
        Some(found) => Ok(ConfirmedView { quote_id, settlement_amount: found.credited_amount }),
        None => Err(PaymentError::Reconciliation),
    }
}

/// The record to write for a quote.
pub fn record_for(cost_native_unit: u64, credited_amount: u64) -> (record: QuoteCostRecord)
    ensures
        record == (QuoteCostRecord { cost_native_unit, credited_amount }),
{
    QuoteCostRecord { cost_native_unit, credited_amount }
}

/// Decides what to credit for a quote that the rail confirmed as paid.
/// `record` is what the store returned for the quote.
pub fn confirm(quote_id: String, record: Option<QuoteCostRecord>) -> (confirmed: Result<
    PaymentConfirmed,
    PaymentError,
>)
    ensures
        match confirmed {
            Ok(payment) => confirmation(quote_id@, record) == Ok::<ConfirmedView, PaymentError>(
                payment@,
            ),
            Err(error) => confirmation(quote_id@, record) == Err::<ConfirmedView, PaymentError>(
                error,
            ),
        },
{
    match record {
        Some(found) => Ok(PaymentConfirmed { quote_id, settlement_amount: found.credited_amount }),
        None => Err(PaymentError::Reconciliation),
    }
}

/// A quote that is confirmed after its record was written is credited the
/// settlement amount that was written, whatever it cost on the rail and
/// whatever was written for other quotes in between; a quote of which the
/// store holds nothing is credited nothing.
pub proof fn lemma_credit_is_the_recorded_amount(
    ledger: LedgerView,
    quote_id: Seq<char>,
    cost_native_unit: u64,
    credited_amount: u64,
    other_quote: Seq<char>,
    other_record: QuoteCostRecord,
)
    requires
        other_quote != quote_id,
    ensures
        confirmation(
            quote_id,
            ledger_read(
                ledger_after_write(
                    ledger,
                    quote_id,
                    QuoteCostRecord { cost_native_unit, credited_amount },
                ),
                quote_id,
            ),
        ) == Ok::<ConfirmedView, PaymentError>(
            ConfirmedView { quote_id, settlement_amount: credited_amount },
        ),
        ledger_read(
            ledger_after_write(
                ledger_after_write(
                    ledger,
                    quote_id,
                    QuoteCostRecord { cost_native_unit, credited_amount },
                ),
                other_quote,
                other_record,
            ),
            quote_id,
        ) == Some(QuoteCostRecord { cost_native_unit, credited_amount }),
        !ledger.dom().contains(quote_id) ==> confirmation(quote_id, ledger_read(ledger, quote_id))
            == Err::<ConfirmedView, PaymentError>(PaymentError::Reconciliation),
{
}

} // verus!
