//! The values that a payment backend exchanges with the mint, and the errors
//! it reports.

use crate::amount::{AmountError, Unit, UnitView};
use crate::cln::Error;
use crate::currency::ConversionError;
use vstd::prelude::*;

verus! {

/// The collaborator that a failed step was asked of.
#[derive(Clone, Copy, Debug, PartialEq, Eq, Structural)]
pub enum RailFailure {
    /// The price service gave no reference price.
    PriceOracle,
    /// The upstream mint refused or could not be reached.
    UpstreamMint,
    /// The store of cost records could not be written or read.
    Ledger,
    /// The remote service behind a paid action failed.
    PaidAction,
}

/// Why a backend did not do what it was asked.
#[derive(Clone, Copy, Debug, PartialEq, Eq, Structural)]
pub enum PaymentError {
    /// The invoice has been paid before.
    InvoiceAlreadyPaid,
    /// A payment of the invoice is under way.
    InvoicePaymentPending,
    /// The payment method asked for is not one the backend handles.
    UnsupportedPaymentOption,
    /// The text is not an invoice.
    Parse,
    /// No invoice amount could be computed from the price.
    Conversion(ConversionError),
    /// An amount could not be converted between units.
    Amount(AmountError),
    /// The upstream mint, the price service, the store or the remote service failed.
    Rail(RailFailure),
    /// A quote was confirmed as paid and has no cost record: nothing is credited.
    Reconciliation,
    /// The Lightning node backend failed.
    Lightning(Error),
    /// No further wait can be registered: every ticket has been handed out.
    TooManyWaits,
    /// The invoice was to expire before it was asked for.
    InvalidExpiry,
}

/// The state of a payment to the mint.
#[derive(Clone, Copy, Debug, PartialEq, Eq, Structural)]
pub enum IncomingPaymentState {
    Unpaid,
    Paid,
    Issued,
}

/// The state of a payment by the mint, as the rail reports it.
#[derive(Clone, Copy, Debug, PartialEq, Eq, Structural)]
pub enum OutgoingPaymentState {
    Unpaid,
    Pending,
    Paid,
    Failed,
    Unknown,
}

/// The identifier under which the mint looks a payment up.
#[derive(Debug, PartialEq, Eq)]
pub enum PaymentIdentifier {
    /// The label of an invoice.
    Label(String),
    /// The identifier of an offer.
    OfferId(String),
    /// A payment hash, in hexadecimal digits.
    PaymentHash(String),
    /// An identifier of the backend's own making.
    CustomId(String),
}

/// A payment identifier with its text as a sequence of characters.
pub enum PaymentIdentifierView {
    Label(Seq<char>),
    OfferId(Seq<char>),
    PaymentHash(Seq<char>),
    CustomId(Seq<char>),
}

impl View for PaymentIdentifier {
    type V = PaymentIdentifierView;

    open spec fn view(&self) -> PaymentIdentifierView {
        match self {
            PaymentIdentifier::Label(text) => PaymentIdentifierView::Label(text@),
            PaymentIdentifier::OfferId(text) => PaymentIdentifierView::OfferId(text@),
            PaymentIdentifier::PaymentHash(text) => PaymentIdentifierView::PaymentHash(text@),
            PaymentIdentifier::CustomId(text) => PaymentIdentifierView::CustomId(text@),
        }
    }
}

impl PaymentIdentifier {
    /// A copy of this identifier.
    pub fn duplicate(&self) -> (copy: PaymentIdentifier)
        ensures
            copy@ == self@,
    {
        match self {
            PaymentIdentifier::Label(text) => PaymentIdentifier::Label(text.clone()),
            PaymentIdentifier::OfferId(text) => PaymentIdentifier::OfferId(text.clone()),
            PaymentIdentifier::PaymentHash(text) => PaymentIdentifier::PaymentHash(text.clone()),
            PaymentIdentifier::CustomId(text) => PaymentIdentifier::CustomId(text.clone()),
        }
    }
}

/// What the mint is told about a backend.
#[derive(Debug, PartialEq, Eq)]
pub struct SettingsResponse {
    /// The unit the backend settles in.
    pub unit: Unit,
    /// Whether invoices are handled.
    pub bolt11: bool,
    /// Whether an invoice may be paid in parts.
    pub mpp: bool,
    /// Whether invoices without an amount are handled.
    pub amountless: bool,
    /// Whether an invoice may carry a description.
    pub invoice_description: bool,
    /// Whether offers are handled.
    pub bolt12: bool,
}

/// A request for payment, as handed to the payer.
#[derive(Debug, PartialEq, Eq)]
pub struct CreateIncomingPaymentResponse {
    /// The identifier under which the payment is looked up later.
    pub request_lookup_id: PaymentIdentifier,
    /// The invoice.
    pub request: String,
    /// When the invoice expires, in seconds since the epoch.
    pub expiry: Option<u64>,
}

/// A payment that was received.
#[derive(Debug, PartialEq, Eq)]
pub struct WaitPaymentResponse {
    /// The identifier that relates the payment to its quote.
    pub payment_identifier: PaymentIdentifier,
    /// The amount to credit.
    pub payment_amount: u64,
    /// The unit of that amount.
    pub unit: Unit,
    /// The rail's own identifier of the payment.
    pub payment_id: String,
}

/// What a payment would cost.
#[derive(Debug, PartialEq, Eq)]
pub struct PaymentQuoteResponse {
    /// The identifier under which the payment is looked up later.
    pub request_lookup_id: Option<PaymentIdentifier>,
    /// The amount to pay.
    pub amount: u64,
    /// The fee to hold in reserve.
    pub fee: u64,
    /// The unit of both.
    pub unit: Unit,
    /// The state of the payment.
    pub state: OutgoingPaymentState,
}

/// What became of a payment.
#[derive(Debug, PartialEq, Eq)]
pub struct MakePaymentResponse {
    /// The identifier under which the payment is looked up.
    pub payment_lookup_id: PaymentIdentifier,
    /// What proves that the payment was made.
    pub payment_proof: Option<String>,
    /// The state the rail reports.
    pub status: OutgoingPaymentState,
    /// The amount spent, fees included.
    pub total_spent: u64,
    /// The unit of that amount.
    pub unit: Unit,
}

/// A payment response as plain values.
pub struct MakePaymentView {
    pub payment_lookup_id: PaymentIdentifierView,
    pub payment_proof: Option<Seq<char>>,
    pub status: OutgoingPaymentState,
    pub total_spent: u64,
    pub unit: UnitView,
}

impl View for MakePaymentResponse {
    type V = MakePaymentView;

    open spec fn view(&self) -> MakePaymentView {
        MakePaymentView {
            payment_lookup_id: self.payment_lookup_id@,
            payment_proof: match self.payment_proof {
                Some(proof) => Some(proof@),
                None => None,
            },
            status: self.status,
            total_spent: self.total_spent,
            unit: self.unit@,
        }
    }
}

/// A received payment as plain values.
pub struct WaitPaymentView {
    pub payment_identifier: PaymentIdentifierView,
    pub payment_amount: u64,
    pub unit: UnitView,
    pub payment_id: Seq<char>,
}

impl View for WaitPaymentResponse {
    type V = WaitPaymentView;

    open spec fn view(&self) -> WaitPaymentView {
        WaitPaymentView {
            payment_identifier: self.payment_identifier@,
            payment_amount: self.payment_amount,
            unit: self.unit@,
            payment_id: self.payment_id@,
        }
    }
}

/// Calls `uuid::Uuid::new_v4` and writes the identifier out with `to_string`,
/// which gives thirty-two hexadecimal digits in five groups between hyphens:
/// thirty-six characters. Which identifier comes is left to chance.
#[verifier::external_body]
pub(crate) fn new_uuid() -> (id: String)
    ensures
        id@.len() == 36,
{
    uuid::Uuid::new_v4().to_string()
}

} // verus!
