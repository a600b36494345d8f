//! The backend that talks to a Lightning node directly.
//!
//! The node is asked over its RPC socket by the caller; what is decided of
//! its answers is decided here: which state an invoice or a payment is in,
//! whether an invoice may be paid at all, what fee to hold in reserve, and
//! what the stream of paid invoices does on each notification.

use crate::amount::{conversion, convert, settlement_unit, AmountError, Unit, UnitView};
use crate::currency::{fee_to_rail_amount, rail_amount_checked, ConversionError};
use crate::invoice::{
    bolt11_decoding, decode_bolt11, decoded_view, hex_encode, hex_encoding, is_payment_hash,
    parses_as_payment_hash, DecodedInvoice, DecodedInvoiceView,
};
use crate::payment::{
    new_uuid, CreateIncomingPaymentResponse, IncomingPaymentState, MakePaymentResponse,
    MakePaymentView, OutgoingPaymentState, PaymentError, PaymentIdentifier,
    PaymentIdentifierView, PaymentQuoteResponse, RailFailure, SettingsResponse,
};
use vstd::prelude::*;

verus! {

/// Seconds to pause after a failed call before the same call is made again.
pub const RPC_RETRY_SECS: u64 = 1;

/// The price of one credit, in cents.
pub const SEARCH_PRICE_CENTS: u64 = 3;

/// An error of the Lightning node backend.
#[derive(Clone, Copy, Debug, PartialEq, Eq, Structural)]
pub enum Error {
    /// The invoice names no amount.
    UnknownInvoiceAmount,
    /// The node answered with something other than what was asked for.
    WrongClnResponse,
    /// The node knows no such invoice.
    UnknownInvoice,
    /// The text is not a payment hash.
    InvalidHash,
    /// The connection to the node failed.
    Cln,
    /// The node answered the call with an error.
    ClnRpc,
    /// An amount could not be converted.
    Amount(AmountError),
    /// No invoice amount could be computed from the price.
    Conversion(ConversionError),
}

impl From<Error> for PaymentError {
    fn from(e: Error) -> (error: PaymentError) {
        PaymentError::Lightning(e)
    }
}

impl vstd::std_specs::convert::FromSpecImpl<Error> for PaymentError {
    open spec fn obeys_from_spec() -> bool {
        true
    }

    open spec fn from_spec(e: Error) -> PaymentError {
        PaymentError::Lightning(e)
    }
}

/// The state of an invoice, as the node lists it.
#[derive(Clone, Copy, Debug, PartialEq, Eq, Structural)]
pub enum ListinvoicesInvoicesStatus {
    Unpaid,
    Paid,
    Expired,
}

/// The state of a payment, as the node lists it.
#[derive(Clone, Copy, Debug, PartialEq, Eq, Structural)]
pub enum ListpaysPaysStatus {
    Pending,
    Complete,
    Failed,
}

/// The state of a payment, as the node reports it when asked to pay.
#[derive(Clone, Copy, Debug, PartialEq, Eq, Structural)]
pub enum PayStatus {
    Complete,
    Pending,
    Failed,
}

/// The state of an invoice that the node notifies of.
#[derive(Clone, Copy, Debug, PartialEq, Eq, Structural)]
pub enum WaitanyinvoiceStatus {
    Paid,
    Expired,
}

/// What the node answered to a call that lists entries: the entry that
/// counts, none, or an answer of another kind.
#[derive(Debug, PartialEq, Eq)]
pub enum Listed<T> {
    Entry(T),
    Empty,
    WrongResponse,
}

/// A payment as the node lists it.
#[derive(Debug, PartialEq, Eq)]
pub struct PaysEntry {
    pub status: ListpaysPaysStatus,
    pub payment_hash: String,
    pub preimage: Option<Vec<u8>>,
    pub amount_sent_msat: Option<u64>,
}

/// What the node reports of a payment it was asked to make.
#[derive(Debug, PartialEq, Eq)]
pub struct PayOutcome {
    pub status: PayStatus,
    pub payment_preimage: Vec<u8>,
    pub payment_hash: String,
    pub amount_sent_msat: u64,
}

/// The quote that a payment is made for.
#[derive(Debug, PartialEq, Eq)]
pub struct MeltQuote {
    pub request: String,
    pub unit: Unit,
}

/// What the node is asked to pay.
#[derive(Debug, PartialEq, Eq)]
pub struct PayRequest {
    /// The invoice to pay.
    pub bolt11: String,
    /// The most that the payment may cost in fees, in millisatoshis.
    pub maxfee_msat: u64,
    /// The part of the amount to pay, where the invoice is paid in parts.
    pub partial_msat: Option<u64>,
}

/// The invoice that the node is asked to make.
#[derive(Debug, PartialEq, Eq)]
pub struct InvoiceRequest {
    pub amount_msat: u64,
    pub description: String,
    pub label: String,
    /// Seconds from now until the invoice expires.
    pub expiry: Option<u64>,
}

/// What the stream of paid invoices is told.
#[derive(Debug, PartialEq, Eq)]
pub enum InvoiceEvent {
    /// The consumer asks for the next paid invoice.
    Pull,
    /// The stream was cancelled.
    Cancelled,
    /// The call that waits for the next invoice failed.
    RpcFailed,
    /// The node answered the call with something that is no notification.
    Unreadable,
    /// The node notified of an invoice.
    Invoice { status: WaitanyinvoiceStatus, pay_index: Option<u64>, payment_hash: String, bolt12: bool },
    /// The invoice looked up by its payment hash, with the offer it belongs to.
    LookedUp { local_offer_id: Option<String> },
    /// The node lists no invoice under the payment hash.
    LookupEmpty,
    /// The lookup by payment hash failed.
    LookupFailed,
}

/// What the stream of paid invoices does next.
#[derive(Debug, PartialEq, Eq)]
pub enum StreamAction {
    /// End the stream.
    Stop,
    /// Wait for the next invoice after the cursor.
    Poll { lastpay_index: Option<u64> },
    /// Pause, then wait for the next invoice after the cursor.
    Backoff { secs: u64, lastpay_index: Option<u64> },
    /// Look the invoice up by its payment hash.
    Lookup { payment_hash: String },
    /// Hand the identifier of the paid invoice to the consumer: its payment
    /// hash, or the offer it was paid to.
    Yield { lookup_id: PaymentIdentifier },
}

/// An event as plain values.
pub enum InvoiceEventView {
    Pull,
    Cancelled,
    RpcFailed,
    Unreadable,
    Invoice { status: WaitanyinvoiceStatus, pay_index: Option<u64>, payment_hash: Seq<char>, bolt12: bool },
    LookedUp { local_offer_id: Option<Seq<char>> },
    LookupEmpty,
    LookupFailed,
}

/// An action as plain values.
pub enum StreamActionView {
    Stop,
    Poll { lastpay_index: Option<u64> },
    Backoff { secs: u64, lastpay_index: Option<u64> },
    Lookup { payment_hash: Seq<char> },
    Yield { lookup_id: PaymentIdentifierView },
}

impl View for InvoiceEvent {
    type V = InvoiceEventView;

    open spec fn view(&self) -> InvoiceEventView {
        match self {
            InvoiceEvent::Pull => InvoiceEventView::Pull,
            InvoiceEvent::Cancelled => InvoiceEventView::Cancelled,
            InvoiceEvent::RpcFailed => InvoiceEventView::RpcFailed,
            InvoiceEvent::Unreadable => InvoiceEventView::Unreadable,
            InvoiceEvent::Invoice { status, pay_index, payment_hash, bolt12 } => {
                InvoiceEventView::Invoice {
                    status: *status,
                    pay_index: *pay_index,
                    payment_hash: payment_hash@,
                    bolt12: *bolt12,
                }
            },
            InvoiceEvent::LookedUp { local_offer_id } => InvoiceEventView::LookedUp {
                local_offer_id: match local_offer_id {
                    Some(id) => Some(id@),
                    None => None,
                },
            },
            InvoiceEvent::LookupEmpty => InvoiceEventView::LookupEmpty,
            InvoiceEvent::LookupFailed => InvoiceEventView::LookupFailed,
        }
    }
}

impl View for StreamAction {
    type V = StreamActionView;

    open spec fn view(&self) -> StreamActionView {
        match self {
            StreamAction::Stop => StreamActionView::Stop,
            StreamAction::Poll { lastpay_index } => StreamActionView::Poll {
                lastpay_index: *lastpay_index,
            },
            StreamAction::Backoff { secs, lastpay_index } => StreamActionView::Backoff {
                secs: *secs,
                lastpay_index: *lastpay_index,
            },
            StreamAction::Lookup { payment_hash } => StreamActionView::Lookup {
                payment_hash: payment_hash@,
            },
            StreamAction::Yield { lookup_id } => StreamActionView::Yield { lookup_id: lookup_id@ },
        }
    }
}

/// The backend as plain values.
pub struct ClnView {
    /// The least fee held in reserve for a payment.
    pub min_fee_reserve: u64,
    /// The pay index of the last invoice that the stream has seen.
    pub cursor: Option<u64>,
    /// Whether the stream was cancelled.
    pub cancelled: bool,
    /// Whether the stream is live.
    pub active: bool,
}

/// Whether one cursor is no later than another. No cursor is before every
/// pay index.
pub open spec fn cursor_le(earlier: Option<u64>, later: Option<u64>) -> bool {
    match (earlier, later) {
        (None, _) => true,
        (Some(_), None) => false,
        (Some(a), Some(b)) => a <= b,
    }
}

/// The cursor after an invoice with the given pay index was seen: the later
/// of the two.
pub open spec fn cursor_after(cursor: Option<u64>, pay_index: Option<u64>) -> Option<u64> {
    if cursor_le(cursor, pay_index) {
        pay_index
    } else {
        cursor
    }
}

/// The backend after the stream was cancelled: cancelled, and not live.
pub open spec fn state_after_cancel(state: ClnView) -> ClnView {
    ClnView { cancelled: true, active: false, ..state }
}

/// The backend after the stream was told of an event.
pub open spec fn state_after_event(state: ClnView, event: InvoiceEventView) -> ClnView {
    if state.cancelled || event is Cancelled {
        ClnView { cancelled: true, active: false, ..state }
    } else {
        match event {
            InvoiceEventView::Pull => ClnView { active: true, ..state },
            InvoiceEventView::Invoice { status, pay_index, payment_hash, bolt12 } => if status
                == WaitanyinvoiceStatus::Paid {
                ClnView { cursor: cursor_after(state.cursor, pay_index), ..state }
            } else {
                state
            },
            _ => state,
        }
    }
}

/// What the stream does on an event.
pub open spec fn action_of_event(state: ClnView, event: InvoiceEventView) -> StreamActionView {
    if state.cancelled || event is Cancelled {
        StreamActionView::Stop
    } else {
        match event {
            InvoiceEventView::RpcFailed => StreamActionView::Backoff {
                secs: RPC_RETRY_SECS,
                lastpay_index: state.cursor,
            },
            InvoiceEventView::Invoice { status, pay_index, payment_hash, bolt12 } => if status
                == WaitanyinvoiceStatus::Expired {
                StreamActionView::Poll { lastpay_index: state.cursor }
            } else if bolt12 {
                StreamActionView::Lookup { payment_hash }
            } else {
                StreamActionView::Yield {
                    lookup_id: PaymentIdentifierView::PaymentHash(payment_hash),
                }
            },
            InvoiceEventView::LookedUp { local_offer_id: Some(id) } => StreamActionView::Yield {
                lookup_id: PaymentIdentifierView::OfferId(id),
            },
            _ => StreamActionView::Poll { lastpay_index: state.cursor },
        }
    }
}

/// The backend after the stream was told of the events one after another.
pub open spec fn state_after_events(state: ClnView, events: Seq<InvoiceEventView>) -> ClnView
    decreases events.len(),
{
    if events.len() == 0 {
        state
    } else {
        state_after_events(state_after_event(state, events[0]), events.drop_first())
    }
}

/// What the stream did on each of the events.
pub open spec fn actions_of_events(state: ClnView, events: Seq<InvoiceEventView>) -> Seq<
    StreamActionView,
>
    decreases events.len(),
{
    if events.len() == 0 {
        Seq::empty()
    } else {
        seq![action_of_event(state, events[0])] + actions_of_events(
            state_after_event(state, events[0]),
            events.drop_first(),
        )
    }
}

/// Once the stream is cancelled it is not live after the next event,
/// whatever the event is, and it ends on that event and on every later one:
/// it never hands out another invoice.
pub proof fn lemma_cancelled_stream_stops(state: ClnView, events: Seq<InvoiceEventView>)
    requires
        state.cancelled,
    ensures
        actions_of_events(state, events).len() == events.len(),
        forall|i: int|
            0 <= i < events.len() ==> #[trigger] actions_of_events(state, events)[i]
                == StreamActionView::Stop,
        events.len() > 0 ==> !state_after_events(state, events).active,
        state_after_events(state, events).cancelled,
        state_after_events(state, events).cursor == state.cursor,
    decreases events.len(),
{
    if events.len() > 0 {
        let next = state_after_event(state, events[0]);
        let rest = events.drop_first();
        lemma_cancelled_stream_stops(next, rest);
        assert forall|i: int| 0 <= i < events.len() implies #[trigger] actions_of_events(
            state,
            events,
        )[i] == StreamActionView::Stop by {
            if i > 0 {
                assert(actions_of_events(state, events)[i] == actions_of_events(next, rest)[i - 1]);
            }
        }
    }
}

/// After a cancel the stream is not live, at once and after whatever it is
/// told of later, and it never hands out another invoice.
pub proof fn lemma_cancel_ends_liveness(state: ClnView, events: Seq<InvoiceEventView>)
    ensures
        !state_after_cancel(state).active,
        !state_after_events(state_after_cancel(state), events).active,
        forall|i: int|
            0 <= i < events.len() ==> #[trigger] actions_of_events(
                state_after_cancel(state),
                events,
            )[i] == StreamActionView::Stop,
{
    lemma_cancelled_stream_stops(state_after_cancel(state), events);
}

/// The cursor of the stream never moves back, whatever the stream is told.
pub proof fn lemma_cursor_never_moves_back(state: ClnView, events: Seq<InvoiceEventView>)
    ensures
        cursor_le(state.cursor, state_after_events(state, events).cursor),
        state_after_events(state, events).min_fee_reserve == state.min_fee_reserve,
    decreases events.len(),
{
    if events.len() > 0 {
        lemma_cursor_never_moves_back(state_after_event(state, events[0]), events.drop_first());
    }
}

/// The state of a payment to the mint that a listed invoice is in. An
/// invoice that expired without payment counts as unpaid.
pub fn cln_invoice_status_to_mint_state(status: ListinvoicesInvoicesStatus) -> (state:
    IncomingPaymentState)
    ensures
        state == (match status {
            ListinvoicesInvoicesStatus::Unpaid => IncomingPaymentState::Unpaid,
            ListinvoicesInvoicesStatus::Paid => IncomingPaymentState::Paid,
            ListinvoicesInvoicesStatus::Expired => IncomingPaymentState::Unpaid,
        }),
{
    match status {
        ListinvoicesInvoicesStatus::Unpaid => IncomingPaymentState::Unpaid,
        ListinvoicesInvoicesStatus::Paid => IncomingPaymentState::Paid,
        ListinvoicesInvoicesStatus::Expired => IncomingPaymentState::Unpaid,
    }
}

/// The state of a payment by the mint that a listed payment is in.
pub open spec fn pays_state(status: ListpaysPaysStatus) -> OutgoingPaymentState {
    match status {
        ListpaysPaysStatus::Pending => OutgoingPaymentState::Pending,
        ListpaysPaysStatus::Complete => OutgoingPaymentState::Paid,
        ListpaysPaysStatus::Failed => OutgoingPaymentState::Failed,
    }
}

/// The state of a payment by the mint that a listed payment is in.
pub fn cln_pays_status_to_mint_state(status: ListpaysPaysStatus) -> (state: OutgoingPaymentState)
    ensures
        state == pays_state(status),
{
    match status {
        ListpaysPaysStatus::Pending => OutgoingPaymentState::Pending,
        ListpaysPaysStatus::Complete => OutgoingPaymentState::Paid,
        ListpaysPaysStatus::Failed => OutgoingPaymentState::Failed,
    }
}

/// The state that the node reports of a payment it was asked to make.
pub open spec fn pay_state(status: PayStatus) -> OutgoingPaymentState {
    match status {
        PayStatus::Complete => OutgoingPaymentState::Paid,
        PayStatus::Pending => OutgoingPaymentState::Pending,
        PayStatus::Failed => OutgoingPaymentState::Failed,
    }
}

/// The invoice amount in millisatoshis for a cost in cents, at the price of
/// one bitcoin in dollars.
pub fn cents_to_msats(cents: u64, btc_price_dollars: u64) -> (msats: Result<u64, Error>)
    ensures
        msats == (match rail_amount_checked(cents as nat, 1, Some(btc_price_dollars)) {
            Ok(amount) => Ok::<u64, Error>(amount),
            Err(error) => Err::<u64, Error>(Error::Conversion(error)),
        }),
{
    match fee_to_rail_amount(cents, 1, Some(btc_price_dollars)) {
        Ok(amount) => Ok(amount),
        Err(error) => Err(Error::Conversion(error)),
    }
}

/// The fee to hold in reserve for a payment: the share of the amount, and no
/// less than the least reserve.
pub open spec fn fee_reserve(relative_fee_reserve: u64, min_fee_reserve: u64) -> u64 {
    if relative_fee_reserve > min_fee_reserve {
        relative_fee_reserve
    } else {
        min_fee_reserve
    }
}

/// What is quoted for an invoice that was read: its amount in `unit` and its
/// payment hash. `decoded` is `None` where the text was no invoice.
pub open spec fn quoted_of(decoded: Option<DecodedInvoiceView>, unit: UnitView) -> Result<
    (u64, Seq<char>),
    PaymentError,
> {
    match decoded {
        None => Err(PaymentError::Parse),
        Some(invoice) => match invoice.amount_msat {
            None => Err(PaymentError::Lightning(Error::UnknownInvoiceAmount)),
            Some(msats) => match conversion(msats, UnitView::Msat, unit) {
                Err(error) => Err(PaymentError::Amount(error)),
                Ok(amount) => Ok((amount, invoice.payment_hash)),
            },
        },
    }
}

/// What `quote_amount` returns: what is quoted for the invoice that the text
/// decodes to.
pub open spec fn quoted_amount(request: Seq<char>, unit: UnitView) -> Result<
    (u64, Seq<char>),
    PaymentError,
> {
    quoted_of(bolt11_decoding(request), unit)
}

/// The amount that an invoice asks for, in `unit`, and its payment hash.
/// `decoded` is what was read from the text of the invoice.
pub fn quote_of_invoice(decoded: Option<DecodedInvoice>, unit: &Unit) -> (quoted: Result<
    (u64, String),
    PaymentError,
>)
    ensures
        match quoted {
            Ok((amount, payment_hash)) => quoted_of(decoded_view(decoded), unit@) == Ok::<
                (u64, Seq<char>),
                PaymentError,
            >((amount, payment_hash@)),
            Err(error) => quoted_of(decoded_view(decoded), unit@) == Err::<
                (u64, Seq<char>),
                PaymentError,
            >(error),
        },
{
    match decoded {
        None => Err(PaymentError::Parse),
        Some(invoice) => match invoice.amount_msat {
            None => Err(PaymentError::Lightning(Error::UnknownInvoiceAmount)),
            Some(msats) => match convert(msats, &Unit::Msat, unit) {
                Err(error) => Err(PaymentError::Amount(error)),
                Ok(amount) => Ok((amount, invoice.payment_hash)),
            },
        },
    }
}

/// The amount that the invoice in a text asks for, in `unit`, and the payment
/// hash of the invoice.
pub fn quote_amount(request: &str, unit: &Unit) -> (quoted: Result<(u64, String), PaymentError>)
    ensures
        match quoted {
            Ok((amount, payment_hash)) => quoted_amount(request@, unit@) == Ok::<
                (u64, Seq<char>),
                PaymentError,
            >((amount, payment_hash@)),
            Err(error) => quoted_amount(request@, unit@) == Err::<(u64, Seq<char>), PaymentError>(
                error,
            ),
        },
{
    quote_of_invoice(decode_bolt11(request), unit)
}

/// What a listed payment says of a payment. `payment_hash` is what was asked
/// for.
pub open spec fn outgoing_status(payment_hash: Seq<char>, listed: Listed<PaysEntry>) -> Result<
    MakePaymentView,
    Error,
> {
    if !is_payment_hash(payment_hash) {
        Err(Error::InvalidHash)
    } else {
        match listed {
            Listed::WrongResponse => Err(Error::WrongClnResponse),
            Listed::Empty => Ok(
                MakePaymentView {
                    payment_lookup_id: PaymentIdentifierView::PaymentHash(payment_hash),
                    payment_proof: None,
                    status: OutgoingPaymentState::Unknown,
                    total_spent: 0,
                    unit: UnitView::Msat,
                },
            ),
            Listed::Entry(entry) => Ok(
                MakePaymentView {
                    payment_lookup_id: PaymentIdentifierView::PaymentHash(entry.payment_hash@),
                    payment_proof: match entry.preimage {
                        Some(bytes) => Some(hex_encoding(bytes@)),
                        None => None,
                    },
                    status: pays_state(entry.status),
                    total_spent: match entry.amount_sent_msat {
                        Some(msats) => msats,
                        None => 0,
                    },
                    unit: UnitView::Msat,
                },
            ),
        }
    }
}

/// What the node is asked to pay, or why it is not asked. An invoice that is
/// paid or being paid is never paid again. A payment that goes ahead is
/// bounded in its fee by the fee reserve, in millisatoshis.
pub open spec fn payment_request(
    request: Seq<char>,
    unit: UnitView,
    partial_amount: Option<u64>,
    relative_fee_reserve: u64,
    min_fee_reserve: u64,
    pay_state: OutgoingPaymentState,
) -> Result<(Seq<char>, u64, Option<u64>), PaymentError> {
    if pay_state == OutgoingPaymentState::Paid {
        Err(PaymentError::InvoiceAlreadyPaid)
    } else if pay_state == OutgoingPaymentState::Pending {
        Err(PaymentError::InvoicePaymentPending)
    } else {
        match conversion(fee_reserve(relative_fee_reserve, min_fee_reserve), unit, UnitView::Msat) {
            Err(error) => Err(PaymentError::Amount(error)),
            Ok(maxfee_msat) => match optional_msats(partial_amount, unit) {
                Err(error) => Err(PaymentError::Amount(error)),
                Ok(partial_msat) => Ok((request, maxfee_msat, partial_msat)),
            },
        }
    }
}

/// An amount in `unit`, where there is one, in millisatoshis.
pub open spec fn optional_msats(amount: Option<u64>, unit: UnitView) -> Result<
    Option<u64>,
    AmountError,
> {
    match amount {
        None => Ok(None),
        Some(value) => match conversion(value, unit, UnitView::Msat) {
            Ok(msats) => Ok(Some(msats)),
            Err(error) => Err(error),
        },
    }
}

fn to_optional_msats(amount: Option<u64>, unit: &Unit) -> (msats: Result<Option<u64>, AmountError>)
    ensures
        msats == optional_msats(amount, unit@),
{
    match amount {
        None => Ok(None),
        Some(value) => match convert(value, unit, &Unit::Msat) {
            Ok(msats) => Ok(Some(msats)),
            Err(error) => Err(error),
        },
    }
}

/// What became of a payment that the node was asked to make. `outcome` is
/// `None` where the node answered with anything but the result of a payment.
pub open spec fn payment_made(outcome: Option<PayOutcome>, unit: UnitView) -> Result<
    MakePaymentView,
    PaymentError,
> {
    match outcome {
        None => Err(PaymentError::Lightning(Error::WrongClnResponse)),
        Some(paid) => match conversion(paid.amount_sent_msat, UnitView::Msat, unit) {
            Err(error) => Err(PaymentError::Amount(error)),
            Ok(spent) => Ok(
                MakePaymentView {
                    payment_lookup_id: PaymentIdentifierView::PaymentHash(paid.payment_hash@),
                    payment_proof: Some(hex_encoding(paid.payment_preimage@)),
                    status: pay_state(paid.status),
                    total_spent: spent,
                    unit,
                },
            ),
        },
    }
}

/// What became of a payment that the node was asked to make.
pub fn finish_payment(outcome: Option<PayOutcome>, unit: &Unit) -> (made: Result<
    MakePaymentResponse,
    PaymentError,
>)
    ensures
        match made {
            Ok(response) => payment_made(outcome, unit@) == Ok::<MakePaymentView, PaymentError>(
                response@,
            ),
            Err(error) => payment_made(outcome, unit@) == Err::<MakePaymentView, PaymentError>(
                error,
            ),
        },
{
    match outcome {
        None => Err(PaymentError::Lightning(Error::WrongClnResponse)),
        Some(paid) => match convert(paid.amount_sent_msat, &Unit::Msat, unit) {
            Err(error) => Err(PaymentError::Amount(error)),
            Ok(spent) => {
                let status = match paid.status {
                    PayStatus::Complete => OutgoingPaymentState::Paid,
                    PayStatus::Pending => OutgoingPaymentState::Pending,
                    PayStatus::Failed => OutgoingPaymentState::Failed,
                };
                Ok(
                    MakePaymentResponse {
                        payment_proof: Some(hex_encode(&paid.payment_preimage)),
                        payment_lookup_id: PaymentIdentifier::PaymentHash(paid.payment_hash),
                        status,
                        total_spent: spent,
                        unit: unit.duplicate(),
                    },
                )
            },
        },
    }
}

/// The amount of an invoice in millisatoshis: for credits, what they cost at
/// the reference price; for any other unit, its conversion.
pub open spec fn incoming_msats(amount: u64, unit: UnitView, usd_price: Option<u64>) -> Result<
    u64,
    PaymentError,
> {
    if unit == settlement_unit() {
        match usd_price {
            None => Err(PaymentError::Rail(RailFailure::PriceOracle)),
            Some(_) => match rail_amount_checked(
                amount as nat,
                SEARCH_PRICE_CENTS as nat,
                usd_price,
            ) {
                Ok(msats) => Ok(msats),
                Err(error) => Err(PaymentError::Conversion(error)),
            },
        }
    } else {
        match conversion(amount, unit, UnitView::Msat) {
            Ok(msats) => Ok(msats),
            Err(error) => Err(PaymentError::Amount(error)),
        }
    }
}

/// Whether an invoice for `unit` needs the reference price.
pub fn needs_price(unit: &Unit) -> (needed: bool)
    ensures
        needed == (unit@ == settlement_unit()),
{
    unit.is_settlement()
}

/// The amount of an invoice in millisatoshis. `usd_price` is the reference
/// price, or `None` where the price service gave none; it is looked at for
/// credits only.
pub fn incoming_amount_msat(amount: u64, unit: &Unit, usd_price: Option<u64>) -> (msats: Result<
    u64,
    PaymentError,
>)
    ensures
        msats == incoming_msats(amount, unit@, usd_price),
{
    if unit.is_settlement() {
        match usd_price {
            None => Err(PaymentError::Rail(RailFailure::PriceOracle)),
            Some(price) => match fee_to_rail_amount(amount, SEARCH_PRICE_CENTS, Some(price)) {
                Ok(msats) => Ok(msats),
                Err(error) => Err(PaymentError::Conversion(error)),
            },
        }
    } else {
        match convert(amount, unit, &Unit::Msat) {
            Ok(msats) => Ok(msats),
            Err(error) => Err(PaymentError::Amount(error)),
        }
    }
}

/// The seconds left at `now` until `unix_expiry`, where there is an expiry.
/// An expiry that has passed is refused.
pub open spec fn seconds_left(unix_expiry: Option<u64>, now: u64) -> Result<
    Option<u64>,
    PaymentError,
> {
    match unix_expiry {
        None => Ok(None),
        Some(at) => if at < now {
            Err(PaymentError::InvalidExpiry)
        } else {
            Ok(Some((at - now) as u64))
        },
    }
}

/// The invoice to ask the node for, expiring at `unix_expiry`, as seen at `now`.
pub fn invoice_request(
    amount_msat: u64,
    description: String,
    unix_expiry: Option<u64>,
    now: u64,
    label: String,
) -> (request: Result<InvoiceRequest, PaymentError>)
    ensures
        match request {
            Ok(invoice) => {
                &&& invoice.amount_msat == amount_msat
                &&& invoice.description@ == description@
                &&& invoice.label@ == label@
                &&& seconds_left(unix_expiry, now) == Ok::<Option<u64>, PaymentError>(
                    invoice.expiry,
                )
            },
            Err(error) => seconds_left(unix_expiry, now) == Err::<Option<u64>, PaymentError>(
                error,
            ),
        },
{
    let expiry: Option<u64> = match unix_expiry {
        Some(at) => {
            if at < now {
                return Err(PaymentError::InvalidExpiry);
            }
            Some(at - now)
        },
        None => None,
    };
    Ok(InvoiceRequest { amount_msat, description, label, expiry })
}

/// Calls `cdk_common::util::unix_time`, which reads the system clock and
/// gives the seconds since the epoch. Nothing is claimed of the time.
#[verifier::external_body]
fn unix_time() -> (now: u64) {
    cdk_common::util::unix_time()
}

/// What an invoice that was read becomes: its payment hash, under which it
/// is looked up, its text and the time it expires. `decoded` is `None` where
/// the text was no invoice.
pub open spec fn created_of(decoded: Option<DecodedInvoiceView>) -> Result<
    (Seq<char>, Seq<char>, Option<u64>),
    PaymentError,
> {
    match decoded {
        None => Err(PaymentError::Parse),
        Some(invoice) => Ok((invoice.payment_hash, invoice.text, invoice.expires_at)),
    }
}

/// What the node's invoice becomes. `bolt11` is `None` where the node
/// answered with anything but an invoice.
pub open spec fn incoming_response(bolt11: Option<Seq<char>>) -> Result<
    (Seq<char>, Seq<char>, Option<u64>),
    PaymentError,
> {
    match bolt11 {
        None => Err(PaymentError::Lightning(Error::WrongClnResponse)),
        Some(text) => created_of(bolt11_decoding(text)),
    }
}

/// What an invoice that was read becomes: a request for payment that is
/// looked up by the payment hash of the invoice.
pub fn response_of_invoice(decoded: Option<DecodedInvoice>) -> (created: Result<
    CreateIncomingPaymentResponse,
    PaymentError,
>)
    ensures
        match created {
            Ok(response) => {
                &&& response.request_lookup_id is PaymentHash
                &&& created_of(decoded_view(decoded)) == Ok::<
                    (Seq<char>, Seq<char>, Option<u64>),
                    PaymentError,
                >((response.request_lookup_id->PaymentHash_0@, response.request@, response.expiry))
            },
            Err(error) => created_of(decoded_view(decoded)) == Err::<
                (Seq<char>, Seq<char>, Option<u64>),
                PaymentError,
            >(error),
        },
{
    match decoded {
        None => Err(PaymentError::Parse),
        Some(invoice) => Ok(
            CreateIncomingPaymentResponse {
                request_lookup_id: PaymentIdentifier::PaymentHash(invoice.payment_hash),
                request: invoice.text,
                expiry: invoice.expires_at,
            },
        ),
    }
}

/// What the node's invoice becomes.
pub fn invoice_created(bolt11: Option<&str>) -> (created: Result<
    CreateIncomingPaymentResponse,
    PaymentError,
>)
    ensures
        match created {
            Ok(response) => {
                &&& bolt11 matches Some(text)
                &&& response.request_lookup_id is PaymentHash
                &&& incoming_response(Some(text@)) == Ok::<
                    (Seq<char>, Seq<char>, Option<u64>),
                    PaymentError,
                >((response.request_lookup_id->PaymentHash_0@, response.request@, response.expiry))
            },
            Err(error) => incoming_response(
                match bolt11 {
                    Some(text) => Some(text@),
                    None => None,
                },
            ) == Err::<(Seq<char>, Seq<char>, Option<u64>), PaymentError>(error),
        },
{
    match bolt11 {
        None => Err(PaymentError::Lightning(Error::WrongClnResponse)),
        Some(text) => response_of_invoice(decode_bolt11(text)),
    }
}

/// The backend of a Lightning node.
pub struct Cln {
    min_fee_reserve: u64,
    last_pay_index: Option<u64>,
    wait_invoice_cancelled: bool,
    wait_invoice_is_active: bool,
}

impl View for Cln {
    type V = ClnView;

    closed spec fn view(&self) -> ClnView {
        ClnView {
            min_fee_reserve: self.min_fee_reserve,
            cursor: self.last_pay_index,
            cancelled: self.wait_invoice_cancelled,
            active: self.wait_invoice_is_active,
        }
    }
}

impl Cln {
    /// A backend that holds at least `min_fee_reserve` in reserve for a
    /// payment, with a stream that has seen no invoice.
    pub fn new(min_fee_reserve: u64) -> (backend: Self)
        ensures
            backend@ == (ClnView {
                min_fee_reserve,
                cursor: None,
                cancelled: false,
                active: false,
            }),
    {
        Cln {
            min_fee_reserve,
            last_pay_index: None,
            wait_invoice_cancelled: false,
            wait_invoice_is_active: false,
        }
    }

    /// What the mint is told about this backend.
    pub fn get_settings(&self) -> (settings: SettingsResponse)
        ensures
            settings.unit@ == UnitView::Msat,
            settings.bolt11,
            settings.mpp,
            !settings.amountless,
            settings.invoice_description,
            !settings.bolt12,
    {
        SettingsResponse {
            unit: Unit::Msat,
            bolt11: true,
            mpp: true,
            amountless: false,
            invoice_description: true,
            bolt12: false,
        }
    }

    /// Whether the stream of paid invoices is live.
    pub fn is_wait_invoice_active(&self) -> (active: bool)
        ensures
            active == self@.active,
    {
        self.wait_invoice_is_active
    }

    /// Cancels the stream of paid invoices. From then on the stream is not
    /// live, and it ends on the next event it is told of.
    pub fn cancel_wait_invoice(&mut self)
        ensures
            final(self)@ == state_after_cancel(old(self)@),
            !final(self)@.active,
    {
        self.wait_invoice_cancelled = true;
        self.wait_invoice_is_active = false;
    }

    /// The pay index to start the stream from: that of the last invoice the
    /// node lists, if it lists any.
    pub fn get_last_pay_index(&self, listed: Listed<Option<u64>>) -> (index: Result<
        Option<u64>,
        Error,
    >)
        ensures
            index == (match listed {
                Listed::Entry(pay_index) => Ok::<Option<u64>, Error>(pay_index),
                Listed::Empty => Ok::<Option<u64>, Error>(None),
                Listed::WrongResponse => Err::<Option<u64>, Error>(Error::WrongClnResponse),
            }),
    {
        match listed {
            Listed::Entry(pay_index) => Ok(pay_index),
            Listed::Empty => Ok(None),
            Listed::WrongResponse => Err(Error::WrongClnResponse),
        }
    }

    /// Starts the stream of paid invoices after the given pay index.
    pub fn wait_any_incoming_payment(&mut self, last_pay_index: Option<u64>)
        ensures
            final(self)@ == (ClnView { cursor: last_pay_index, ..old(self)@ }),
    {
        self.last_pay_index = last_pay_index;
    }

    /// One step of the stream of paid invoices: what the stream does on an
    /// event. An expired invoice is passed over and leaves the cursor where
    /// it is; a paid one moves the cursor on and is handed out, after a
    /// lookup of its offer where it was paid to an offer; a lookup that fails
    /// or finds nothing, a failed call and an unreadable answer are passed
    /// over and the stream goes on.
    pub fn on_invoice_event(&mut self, event: InvoiceEvent) -> (action: StreamAction)
        ensures
            final(self)@ == state_after_event(old(self)@, event@),
            action@ == action_of_event(old(self)@, event@),
            cursor_le(old(self)@.cursor, final(self)@.cursor),
    {
        if self.wait_invoice_cancelled {
            self.wait_invoice_is_active = false;
            return StreamAction::Stop;
        }
        match event {
            InvoiceEvent::Cancelled => {
                self.wait_invoice_cancelled = true;
                self.wait_invoice_is_active = false;
                StreamAction::Stop
            },
            InvoiceEvent::Pull => {
                self.wait_invoice_is_active = true;
                StreamAction::Poll { lastpay_index: self.last_pay_index }
            },
            InvoiceEvent::RpcFailed => StreamAction::Backoff {
                secs: RPC_RETRY_SECS,
                lastpay_index: self.last_pay_index,
            },
            InvoiceEvent::Invoice { status, pay_index, payment_hash, bolt12 } => {
                match status {
                    WaitanyinvoiceStatus::Expired => StreamAction::Poll {
                        lastpay_index: self.last_pay_index,
                    },
                    WaitanyinvoiceStatus::Paid => {
                        self.last_pay_index = later_cursor(self.last_pay_index, pay_index);
                        if bolt12 {
                            StreamAction::Lookup { payment_hash }
                        } else {
                            StreamAction::Yield {
                                lookup_id: PaymentIdentifier::PaymentHash(payment_hash),
                            }
                        }
                    },
                }
            },
            InvoiceEvent::LookedUp { local_offer_id } => match local_offer_id {
                Some(id) => StreamAction::Yield { lookup_id: PaymentIdentifier::OfferId(id) },
                None => StreamAction::Poll { lastpay_index: self.last_pay_index },
            },
            _ => StreamAction::Poll { lastpay_index: self.last_pay_index },
        }
    }

    /// What a payment of an invoice would cost. `relative_fee_reserve` is the
    /// share of the invoice's amount that the fee reserve asks for.
    pub fn get_payment_quote(&self, request: &str, unit: &Unit, relative_fee_reserve: u64) -> (quote:
        Result<PaymentQuoteResponse, PaymentError>)
        ensures
            match quote {
                Ok(response) => {
                    &&& response.request_lookup_id matches Some(lookup)
                    &&& lookup is PaymentHash
                    &&& quoted_amount(request@, unit@) == Ok::<(u64, Seq<char>), PaymentError>(
                        (response.amount, lookup->PaymentHash_0@),
                    )
                    &&& response.fee == fee_reserve(relative_fee_reserve, self@.min_fee_reserve)
                    &&& response.unit@ == unit@
                    &&& response.state == OutgoingPaymentState::Unpaid
                },
                Err(error) => quoted_amount(request@, unit@) == Err::<
                    (u64, Seq<char>),
                    PaymentError,
                >(error),
            },
    {
        match quote_amount(request, unit) {
            Err(error) => Err(error),
            Ok((amount, payment_hash)) => {
                let fee: u64 = self.reserve(relative_fee_reserve);
                Ok(
                    PaymentQuoteResponse {
                        request_lookup_id: Some(PaymentIdentifier::PaymentHash(payment_hash)),
                        amount,
                        fee,
                        unit: unit.duplicate(),
                        state: OutgoingPaymentState::Unpaid,
                    },
                )
            },
        }
    }

    fn reserve(&self, relative_fee_reserve: u64) -> (fee: u64)
        ensures
            fee == fee_reserve(relative_fee_reserve, self@.min_fee_reserve),
    {
        if relative_fee_reserve > self.min_fee_reserve {
            relative_fee_reserve
        } else {
            self.min_fee_reserve
        }
    }

    /// Decides whether the node is asked to pay the invoice of a quote, and
    /// with what bounds. `relative_fee_reserve` is the share of the invoice's
    /// amount that the fee reserve asks for, in the unit of the quote;
    /// `pay_state` is the state that the node lists the payment of the
    /// invoice in. Every payment that goes ahead has its fee bounded by the
    /// fee reserve.
    pub fn make_payment(
        &self,
        melt_quote: &MeltQuote,
        partial_amount: Option<u64>,
        relative_fee_reserve: u64,
        pay_state: OutgoingPaymentState,
    ) -> (pay: Result<PayRequest, PaymentError>)
        ensures
            match pay {
                Ok(request) => payment_request(
                    melt_quote.request@,
                    melt_quote.unit@,
                    partial_amount,
                    relative_fee_reserve,
                    self@.min_fee_reserve,
                    pay_state,
                ) == Ok::<(Seq<char>, u64, Option<u64>), PaymentError>(
                    (request.bolt11@, request.maxfee_msat, request.partial_msat),
                ),
                Err(error) => payment_request(
                    melt_quote.request@,
                    melt_quote.unit@,
                    partial_amount,
                    relative_fee_reserve,
                    self@.min_fee_reserve,
                    pay_state,
                ) == Err::<(Seq<char>, u64, Option<u64>), PaymentError>(error),
            },
            pay_state == OutgoingPaymentState::Paid ==> pay == Err::<PayRequest, PaymentError>(
                PaymentError::InvoiceAlreadyPaid,
            ),
            pay_state == OutgoingPaymentState::Pending ==> pay == Err::<PayRequest, PaymentError>(
                PaymentError::InvoicePaymentPending,
            ),
            pay matches Ok(request) ==> conversion(
                fee_reserve(relative_fee_reserve, self@.min_fee_reserve),
                melt_quote.unit@,
                UnitView::Msat,
            ) == Ok::<u64, AmountError>(request.maxfee_msat),
    {
        match pay_state {
            OutgoingPaymentState::Paid => return Err(PaymentError::InvoiceAlreadyPaid),
            OutgoingPaymentState::Pending => return Err(PaymentError::InvoicePaymentPending),
            _ => {},
        }
        let fee = self.reserve(relative_fee_reserve);
        let maxfee_msat = match convert(fee, &melt_quote.unit, &Unit::Msat) {
            Ok(msats) => msats,
            Err(error) => return Err(PaymentError::Amount(error)),
        };
        let partial_msat = match to_optional_msats(partial_amount, &melt_quote.unit) {
            Ok(msats) => msats,
            Err(error) => return Err(PaymentError::Amount(error)),
        };
        Ok(
            PayRequest {
                bolt11: melt_quote.request.clone(),
                maxfee_msat,
                partial_msat,
            },
        )
    }

    /// The invoice to ask the node for, under a fresh label, for an amount
    /// in millisatoshis, as seen at the time of the call. An invoice that was
    /// to expire before then is refused.
    pub fn create_incoming_payment_request(
        &self,
        amount_msat: u64,
        description: String,
        unix_expiry: Option<u64>,
    ) -> (request: Result<InvoiceRequest, PaymentError>)
        ensures
            match request {
                Ok(invoice) => {
                    &&& invoice.amount_msat == amount_msat
                    &&& invoice.description@ == description@
                    &&& invoice.label@.len() == 36
                    &&& invoice.expiry is Some == unix_expiry is Some
                    &&& invoice.expiry matches Some(secs) ==> secs <= unix_expiry->0
                },
                Err(error) => unix_expiry is Some && error == PaymentError::InvalidExpiry,
            },
            unix_expiry is None ==> request is Ok,
    {
        let now = unix_time();
        let label = new_uuid();
        invoice_request(amount_msat, description, unix_expiry, now, label)
    }

    /// The state of a payment to the mint. `listed` is the first invoice
    /// that the node lists under the payment hash.
    pub fn check_incoming_payment_status(&self, listed: Listed<ListinvoicesInvoicesStatus>) -> (state:
        Result<IncomingPaymentState, Error>)
        ensures
            state == (match listed {
                Listed::Entry(ListinvoicesInvoicesStatus::Paid) => Ok::<IncomingPaymentState, Error>(
                    IncomingPaymentState::Paid,
                ),
                Listed::Entry(_) => Ok::<IncomingPaymentState, Error>(IncomingPaymentState::Unpaid),
                _ => Err::<IncomingPaymentState, Error>(Error::WrongClnResponse),
            }),
    {
        match listed {
            Listed::Entry(status) => Ok(cln_invoice_status_to_mint_state(status)),
            _ => Err(Error::WrongClnResponse),
        }
    }

    /// Whether a text is a payment hash that the node can be asked about.
    pub fn is_valid_payment_hash(&self, payment_hash: &str) -> (valid: bool)
        ensures
            valid == is_payment_hash(payment_hash@),
    {
        parses_as_payment_hash(payment_hash)
    }

    /// The state of a payment by the mint. `listed` is the first payment
    /// that the node lists under the payment hash.
    pub fn check_outgoing_payment(&self, payment_hash: &str, listed: Listed<PaysEntry>) -> (status:
        Result<MakePaymentResponse, Error>)
        ensures
            match status {
                Ok(response) => outgoing_status(payment_hash@, listed) == Ok::<
                    MakePaymentView,
                    Error,
                >(response@),
                Err(error) => outgoing_status(payment_hash@, listed) == Err::<
                    MakePaymentView,
                    Error,
                >(error),
            },
    {
        if !parses_as_payment_hash(payment_hash) {
            return Err(Error::InvalidHash);
        }
        match listed {
            Listed::WrongResponse => Err(Error::WrongClnResponse),
            Listed::Empty => Ok(
                MakePaymentResponse {
                    payment_lookup_id: PaymentIdentifier::PaymentHash(payment_hash.to_owned()),
                    payment_proof: None,
                    status: OutgoingPaymentState::Unknown,
                    total_spent: 0,
                    unit: Unit::Msat,
                },
            ),
            Listed::Entry(entry) => {
                let status = cln_pays_status_to_mint_state(entry.status);
                let payment_proof = match &entry.preimage {
                    Some(bytes) => Some(hex_encode(bytes)),
                    None => None,
                };
                let total_spent: u64 = match entry.amount_sent_msat {
                    Some(msats) => msats,
                    None => 0,
                };
                Ok(
                    MakePaymentResponse {
                        payment_lookup_id: PaymentIdentifier::PaymentHash(entry.payment_hash),
                        payment_proof,
                        status,
                        total_spent,
                        unit: Unit::Msat,
                    },
                )
            },
        }
    }
}

/// The later of the cursor and the pay index of an invoice.
fn later_cursor(cursor: Option<u64>, pay_index: Option<u64>) -> (later: Option<u64>)
    ensures
        later == cursor_after(cursor, pay_index),
        cursor_le(cursor, later),
{
    match (cursor, pay_index) {
        (None, _) => pay_index,
        (Some(_), None) => cursor,
        (Some(seen), Some(index)) => if seen <= index {
            pay_index
        } else {
            cursor
        },
    }
}

} // verus!
