//! The backend that buys its credit from an upstream mint through a wallet.
//!
//! A request for payment becomes a quote of the upstream mint for what the
//! credits cost in satoshis. What was paid and what is credited are written
//! down before the invoice is handed out, and a wait for the quote joins the
//! pool. A quote that cannot be handed out is abandoned: it is dropped, and
//! its record with it. Paying out is not a transfer here: it stands for one
//! query of the search service, at a fixed cost of one credit.

use crate::amount::{convert, settlement_unit, Unit};
use crate::currency::{
    fee_to_rail_amount, lemma_fee_covers_cost, rail_amount_checked, ConversionError,
    CENTS_PER_DOLLAR, MSATS_PER_BTC, MSATS_PER_SAT,
};
use crate::ledger::{confirm, confirmation, record_for, QuoteCostRecord};
use crate::payment::{
    new_uuid, CreateIncomingPaymentResponse, IncomingPaymentState, MakePaymentResponse,
    OutgoingPaymentState, PaymentError, PaymentIdentifier, PaymentIdentifierView,
    PaymentQuoteResponse, RailFailure, SettingsResponse, WaitPaymentResponse,
};
use crate::pool::{
    action_of_poll, distinct_quotes, pool_after_poll, pool_after_register, registered_ticket,
    registration, resolved_view, ConfirmedView, PaymentConfirmed, PendingWaitPool, PollAction,
    PoolView, Registration, Resolution,
};
use vstd::prelude::*;

verus! {

/// Seconds to wait for the payment of a quote that was just handed out.
pub const MINT_WAIT_SECS: u64 = 500;

/// Seconds to wait for the payment of a quote found open at a restart.
pub const RESCAN_WAIT_SECS: u64 = 5;

/// What one paid action costs, in the settlement unit.
pub const PAID_ACTION_COST: u64 = 1;

/// Where a paid action is sent.
pub const PAID_ACTION_URL: &'static str = "https://kagi.com/api/v0/search";

/// How a payment to the mint is asked for.
#[derive(Debug, PartialEq, Eq)]
pub enum IncomingPaymentOptions {
    /// By an invoice for `amount`, in the settlement unit.
    Bolt11 { amount: u64 },
    /// By an offer.
    Bolt12,
    /// By a method of the payer's own.
    Custom,
    /// On chain.
    Onchain,
}

/// How a payment by the mint is asked for.
#[derive(Debug, PartialEq, Eq)]
pub enum OutgoingPaymentOptions {
    /// By an invoice.
    Bolt11 { bolt11: String },
    /// By an offer.
    Bolt12 { offer: String },
    /// By a request in the backend's own form.
    Custom { request: String },
    /// On chain.
    Onchain { address: String },
}

/// What a request for payment costs on the rail.
#[derive(Clone, Copy, Debug, PartialEq, Eq, Structural)]
pub struct QuotePlan {
    /// The amount asked for, in the settlement unit.
    pub amount_xsr: u64,
    /// What the invoice is issued for, in millisatoshis.
    pub cost_msats: u64,
    /// The same in whole satoshis: what is asked of the upstream mint.
    pub cost_sats: u64,
}

/// The query that stands for a paid action.
#[derive(Debug, PartialEq, Eq)]
pub struct PaidActionRequest {
    /// Where the query is sent.
    pub url: String,
    /// The value of the authorization header.
    pub authorization: String,
    /// The text searched for.
    pub query: String,
}

/// What is undone where a quote that the upstream mint issued is not handed
/// out, so that no quote stays without its record and no record without its
/// quote.
#[derive(Debug, PartialEq, Eq)]
pub struct AbandonedQuote {
    /// The quote to drop from the store of the wallet.
    pub quote_id: String,
    /// Whether a record was written for the quote and is to be removed.
    pub drop_record: bool,
    /// Why the quote is not handed out.
    pub error: PaymentError,
}

/// The wallet-backed payment backend.
pub struct CashuWalletBackend {
    wait_invoice_active: bool,
    pending_mints: PendingWaitPool,
    kagi_auth_token: String,
    cost_per_xsr_cents: u64,
}

/// What `plan_quote` returns.
pub open spec fn quote_plan(cost_per_xsr_cents: u64, amount: u64, usd_price: Option<u64>) -> Result<
    QuotePlan,
    PaymentError,
> {
    match usd_price {
        None => Err(PaymentError::Rail(RailFailure::PriceOracle)),
        Some(_) => match rail_amount_checked(amount as nat, cost_per_xsr_cents as nat, usd_price) {
            Err(error) => Err(PaymentError::Conversion(error)),
            Ok(msats) => Ok(
                QuotePlan {
                    amount_xsr: amount,
                    cost_msats: msats,
                    cost_sats: (msats / 1000) as u64,
                },
            ),
        },
    }
}

/// The satoshis asked of the upstream mint cover the cost of the credits at
/// the reference price and exceed it by less than one satoshi; where no
/// quote is planned at a price above zero, the cost or the amount does not
/// fit in 64 bits.
pub proof fn lemma_quote_covers_cost(cost_per_xsr_cents: u64, amount: u64, price_dollars: u64)
    requires
        price_dollars > 0,
    ensures
        match quote_plan(cost_per_xsr_cents, amount, Some(price_dollars)) {
            Ok(plan) => {
                &&& plan.amount_xsr == amount
                &&& plan.cost_sats * MSATS_PER_SAT == plan.cost_msats
                &&& plan.cost_sats * MSATS_PER_SAT * (price_dollars * CENTS_PER_DOLLAR) >= (amount
                    * cost_per_xsr_cents) * MSATS_PER_BTC
                &&& (plan.cost_sats - 1) * MSATS_PER_SAT * (price_dollars * CENTS_PER_DOLLAR) < (
                amount * cost_per_xsr_cents) * MSATS_PER_BTC
            },
            Err(error) => error == PaymentError::Conversion(ConversionError::Overflow),
        },
{
    lemma_fee_covers_cost(amount, cost_per_xsr_cents, price_dollars);
    if let Ok(plan) = quote_plan(cost_per_xsr_cents, amount, Some(price_dollars)) {
        let msats = plan.cost_msats;
        let sats = plan.cost_sats;
        assert(sats * 1000 == msats);
        assert((sats - 1) * 1000 == msats - 1000);
    }
}

/// What becomes of the quote that the upstream mint issued: handed out with
/// the ticket of its wait, or without one where a wait for it is in flight
/// already; not handed out where its record was not written or no ticket is
/// left.
pub open spec fn quote_registration(pool: PoolView, quote_id: Seq<char>, stored: bool) -> Result<
    Option<u64>,
    PaymentError,
> {
    if !stored {
        Err(PaymentError::Rail(RailFailure::Ledger))
    } else {
        match registration(pool, quote_id) {
            Registration::Registered(ticket) => Ok(Some(ticket)),
            Registration::AlreadyPending => Ok(None),
            Registration::Exhausted => Err(PaymentError::TooManyWaits),
        }
    }
}

/// The pool after a wait of `RESCAN_WAIT_SECS` was asked for each of the
/// quotes in turn. A quote that has a wait in flight gets no second one.
pub open spec fn pool_after_rescan(pool: PoolView, quotes: Seq<String>, now: u64) -> PoolView
    decreases quotes.len(),
{
    if quotes.len() == 0 {
        pool
    } else {
        pool_after_rescan(
            pool_after_register(pool, quotes[0]@, now, RESCAN_WAIT_SECS),
            quotes.drop_first(),
            now,
        )
    }
}

/// For each of the quotes, in their order, the ticket of the wait that a
/// rescan registers for it, or `None` where it registers none.
pub open spec fn tickets_of_rescan(pool: PoolView, quotes: Seq<String>, now: u64) -> Seq<
    Option<u64>,
>
    decreases quotes.len(),
{
    if quotes.len() == 0 {
        Seq::empty()
    } else {
        seq![registered_ticket(registration(pool, quotes[0]@))] + tickets_of_rescan(
            pool_after_register(pool, quotes[0]@, now, RESCAN_WAIT_SECS),
            quotes.drop_first(),
            now,
        )
    }
}

/// What a wait resolves to: the confirmation that the record gives, where
/// the quote was minted and has a record; nothing otherwise.
pub open spec fn wait_resolution(
    quote_id: Seq<char>,
    minted: bool,
    record: Option<QuoteCostRecord>,
) -> Option<ConfirmedView> {
    if minted {
        match confirmation(quote_id, record) {
            Ok(confirmed) => Some(confirmed),
            Err(_) => None,
        }
    } else {
        None
    }
}

/// Decides what a wait resolves to. `minted` says whether the upstream mint
/// confirmed the payment and minted the credit; `record` is what the store
/// holds for the quote.
pub fn resolve_wait(quote_id: String, minted: bool, record: Option<QuoteCostRecord>) -> (outcome:
    Option<PaymentConfirmed>)
    ensures
        match outcome {
            Some(confirmed) => wait_resolution(quote_id@, minted, record) == Some(confirmed@),
            None => wait_resolution(quote_id@, minted, record) is None,
        },
{
    if !minted {
        return None;
    }
    match confirm(quote_id, record) {
        Ok(confirmed) => Some(confirmed),
        Err(_) => None,
    }
}

/// The invoice amount in millisatoshis for a cost in cents, at the price of
/// one bitcoin in dollars.
pub fn cents_to_msats(cents: u64, btc_price_dollars: u64) -> (msats: Result<u64, ConversionError>)
    ensures
        msats == rail_amount_checked(cents as nat, 1, Some(btc_price_dollars)),
{
    fee_to_rail_amount(cents, 1, Some(btc_price_dollars))
}

impl CashuWalletBackend {
    #[verifier::type_invariant]
    spec fn well_formed(self) -> bool {
        distinct_quotes(self.pending_mints@)
    }

    /// The waits in flight.
    pub closed spec fn pending(&self) -> PoolView {
        self.pending_mints@
    }

    /// The price of one credit, in cents.
    pub closed spec fn unit_price_cents(&self) -> u64 {
        self.cost_per_xsr_cents
    }

    /// The token that authorizes paid actions.
    pub closed spec fn auth_token(&self) -> Seq<char> {
        self.kagi_auth_token@
    }

    /// Whether the stream of payment events is marked as live.
    pub closed spec fn wait_active(&self) -> bool {
        self.wait_invoice_active
    }

    /// A backend with no wait in flight.
    pub fn new(kagi_auth_token: &str, cost_per_xsr_cents: u64) -> (backend: Self)
        ensures
            backend.pending().waits == Map::<u64, crate::pool::WaitView>::empty(),
            backend.pending().next_ticket == 0,
            distinct_quotes(backend.pending()),
            backend.unit_price_cents() == cost_per_xsr_cents,
            backend.auth_token() == kagi_auth_token@,
            !backend.wait_active(),
    {
        CashuWalletBackend {
            wait_invoice_active: false,
            pending_mints: PendingWaitPool::new(),
            kagi_auth_token: kagi_auth_token.to_owned(),
            cost_per_xsr_cents,
        }
    }

    /// What the mint is told about this backend.
    pub fn get_settings(&self) -> (settings: SettingsResponse)
        ensures
            settings.unit@ == settlement_unit(),
            settings.bolt11,
            !settings.mpp,
            !settings.amountless,
            settings.invoice_description,
            !settings.bolt12,
    {
        SettingsResponse {
            unit: Unit::settlement(),
            bolt11: true,
            mpp: false,
            amountless: false,
            invoice_description: true,
            bolt12: false,
        }
    }

    /// The first step of a request for payment: the amount asked for, or a
    /// refusal of every method but the invoice.
    pub fn create_incoming_payment_request(&self, options: &IncomingPaymentOptions) -> (amount:
        Result<u64, PaymentError>)
        ensures
            amount == (match *options {
                IncomingPaymentOptions::Bolt11 { amount } => Ok::<u64, PaymentError>(amount),
                _ => Err::<u64, PaymentError>(PaymentError::UnsupportedPaymentOption),
            }),
    {
        match options {
            IncomingPaymentOptions::Bolt11 { amount } => Ok(*amount),
            _ => Err(PaymentError::UnsupportedPaymentOption),
        }
    }

    /// The second step: what the credits cost on the rail at the reference
    /// price, or `None` for the price where the price service gave none.
    pub fn plan_quote(&self, amount: u64, usd_price: Option<u64>) -> (plan: Result<
        QuotePlan,
        PaymentError,
    >)
        ensures
            plan == quote_plan(self.unit_price_cents(), amount, usd_price),
    {
        match usd_price {
            None => Err(PaymentError::Rail(RailFailure::PriceOracle)),
            Some(price) => match fee_to_rail_amount(amount, self.cost_per_xsr_cents, Some(price)) {
                Err(error) => Err(PaymentError::Conversion(error)),
                Ok(msats) => match convert(msats, &Unit::Msat, &Unit::Sat) {
                    Ok(sats) => Ok(
                        QuotePlan { amount_xsr: amount, cost_msats: msats, cost_sats: sats },
                    ),
                    Err(error) => Err(PaymentError::Amount(error)),
                },
            },
        }
    }

    /// The third step: the record to write for the quote that the upstream
    /// mint issued, before its invoice is handed out.
    pub fn record_quote(&self, plan: &QuotePlan) -> (record: QuoteCostRecord)
        ensures
            record == (QuoteCostRecord {
                cost_native_unit: plan.cost_sats,
                credited_amount: plan.amount_xsr,
            }),
    {
        record_for(plan.cost_sats, plan.amount_xsr)
    }

    /// The last step. `stored` says whether the record was written. Where it
    /// was, a wait for the quote joins the pool, unless one is in flight, and
    /// the invoice is handed out with the ticket of the new wait. Where the
    /// record was not written or no ticket is left, the pool stays as it is,
    /// no invoice is handed out, and what is returned says what to undo: the
    /// quote is dropped, and so is its record where one was written.
    pub fn register_quote(
        &mut self,
        quote_id: String,
        request: String,
        expiry: u64,
        stored: bool,
        now: u64,
    ) -> (issued: Result<(Option<u64>, CreateIncomingPaymentResponse), AbandonedQuote>)
        ensures
            final(self).unit_price_cents() == old(self).unit_price_cents(),
            final(self).auth_token() == old(self).auth_token(),
            final(self).wait_active() == old(self).wait_active(),
            distinct_quotes(final(self).pending()),
            match issued {
                Ok((ticket, response)) => {
                    &&& quote_registration(old(self).pending(), quote_id@, stored) == Ok::<
                        Option<u64>,
                        PaymentError,
                    >(ticket)
                    &&& final(self).pending() == pool_after_register(
                        old(self).pending(),
                        quote_id@,
                        now,
                        MINT_WAIT_SECS,
                    )
                    &&& response.request_lookup_id@ == PaymentIdentifierView::CustomId(quote_id@)
                    &&& response.request@ == request@
                    &&& response.expiry == Some(expiry)
                },
                Err(abandoned) => {
                    &&& quote_registration(old(self).pending(), quote_id@, stored) == Err::<
                        Option<u64>,
                        PaymentError,
                    >(abandoned.error)
                    &&& final(self).pending() == old(self).pending()
                    &&& abandoned.quote_id@ == quote_id@
                    &&& abandoned.drop_record == stored
                },
            },
    {
        proof {
            use_type_invariant(&*self);
        }
        if !stored {
            return Err(
                AbandonedQuote {
                    quote_id,
                    drop_record: false,
                    error: PaymentError::Rail(RailFailure::Ledger),
                },
            );
        }
        let lookup = quote_id.clone();
        let mut pool = PendingWaitPool::new();
        core::mem::swap(&mut self.pending_mints, &mut pool);
        let outcome = pool.register(quote_id, now, MINT_WAIT_SECS);
        core::mem::swap(&mut self.pending_mints, &mut pool);
        let ticket = match outcome {
            Registration::Registered(ticket) => Some(ticket),
            Registration::AlreadyPending => None,
            Registration::Exhausted => {
                return Err(
                    AbandonedQuote {
                        quote_id: lookup,
                        drop_record: true,
                        error: PaymentError::TooManyWaits,
                    },
                );
            },
        };
        Ok(
            (
                ticket,
                CreateIncomingPaymentResponse {
                    request_lookup_id: PaymentIdentifier::CustomId(lookup),
                    request,
                    expiry: Some(expiry),
                },
            ),
        )
    }

    /// What a payment by this backend would cost: one credit, no fee.
    pub fn get_payment_quote(&self) -> (quote: PaymentQuoteResponse)
        ensures
            quote.request_lookup_id is None,
            quote.amount == PAID_ACTION_COST,
            quote.fee == 0,
            quote.unit@ == settlement_unit(),
            quote.state == OutgoingPaymentState::Unpaid,
    {
        PaymentQuoteResponse {
            request_lookup_id: None,
            amount: PAID_ACTION_COST,
            fee: 0,
            unit: Unit::settlement(),
            state: OutgoingPaymentState::Unpaid,
        }
    }

    /// The query that a payment by this backend stands for. Only a request
    /// in the backend's own form stands for one: every other method is
    /// refused.
    pub fn paid_action(&self, options: &OutgoingPaymentOptions) -> (action: Result<
        PaidActionRequest,
        PaymentError,
    >)
        ensures
            action is Ok <==> options is Custom,
            action matches Ok(query) ==> {
                &&& query.url@ == PAID_ACTION_URL@
                &&& query.authorization@ == "Bot "@ + self.auth_token()
                &&& query.query@ == options->request@
            },
            action matches Err(error) ==> error == PaymentError::UnsupportedPaymentOption,
    {
        match options {
            OutgoingPaymentOptions::Custom { request } => {
                let mut authorization = String::from_str("Bot ");
                authorization.append(self.kagi_auth_token.as_str());
                Ok(
                    PaidActionRequest {
                        url: PAID_ACTION_URL.to_owned(),
                        authorization,
                        query: request.clone(),
                    },
                )
            },
            _ => Err(PaymentError::UnsupportedPaymentOption),
        }
    }

    /// What becomes of a payment by this backend. A method other than a
    /// request in the backend's own form is refused, whatever the answer.
    /// Otherwise the payment is a paid action under a fresh identifier:
    /// `answer` is what the search service answered, or `None` where the
    /// query failed.
    pub fn make_payment(&self, options: &OutgoingPaymentOptions, answer: Option<String>) -> (made:
        Result<MakePaymentResponse, PaymentError>)
        ensures
            match made {
                Ok(response) => {
                    &&& options is Custom
                    &&& answer matches Some(text)
                    &&& response.payment_lookup_id is CustomId
                    &&& response.payment_lookup_id->CustomId_0@.len() == 36
                    &&& response.payment_proof matches Some(proof)
                    &&& proof@ == text@
                    &&& response.status == OutgoingPaymentState::Paid
                    &&& response.total_spent == PAID_ACTION_COST
                    &&& response.unit@ == settlement_unit()
                },
                Err(error) => error == (if options is Custom {
                    PaymentError::Rail(RailFailure::PaidAction)
                } else {
                    PaymentError::UnsupportedPaymentOption
                }) && (options is Custom ==> answer is None),
            },
    {
        match options {
            OutgoingPaymentOptions::Custom { .. } => {
                let id = new_uuid();
                paid_action_response(id, answer)
            },
            _ => Err(PaymentError::UnsupportedPaymentOption),
        }
    }

    /// Asks for a wait for each quote that was found open at a restart, and
    /// returns for each of the quotes, in their order, the ticket of the wait
    /// that was registered for it, or `None` where none was: a quote that has
    /// a wait in flight gets no second one.
    pub fn wait_payment_event(&mut self, open_quotes: &Vec<String>, now: u64) -> (tickets: Vec<
        Option<u64>,
    >)
        ensures
            final(self).pending() == pool_after_rescan(old(self).pending(), open_quotes@, now),
            tickets@ == tickets_of_rescan(old(self).pending(), open_quotes@, now),
            tickets@.len() == open_quotes@.len(),
            distinct_quotes(final(self).pending()),
            final(self).unit_price_cents() == old(self).unit_price_cents(),
            final(self).auth_token() == old(self).auth_token(),
            final(self).wait_active() == old(self).wait_active(),
    {
        proof {
            use_type_invariant(&*self);
        }
        let mut tickets: Vec<Option<u64>> = Vec::new();
        let mut pool = PendingWaitPool::new();
        core::mem::swap(&mut self.pending_mints, &mut pool);
        let ghost start = pool@;
        proof {
            assert(open_quotes@.skip(0) == open_quotes@);
            assert(tickets@ + tickets_of_rescan(start, open_quotes@, now) == tickets_of_rescan(
                start,
                open_quotes@,
                now,
            ));
        }
        let mut i: usize = 0;
        while i < open_quotes.len()
            invariant
                i <= open_quotes.len(),
                tickets@.len() == i,
                distinct_quotes(pool@),
                pool_after_rescan(pool@, open_quotes@.skip(i as int), now) == pool_after_rescan(
                    start,
                    open_quotes@,
                    now,
                ),
                tickets@ + tickets_of_rescan(pool@, open_quotes@.skip(i as int), now)
                    == tickets_of_rescan(start, open_quotes@, now),
            decreases open_quotes.len() - i,
        {
            let ghost rest = open_quotes@.skip(i as int);
            let ghost before = pool@;
            proof {
                assert(rest[0] == open_quotes@[i as int]);
                assert(rest.drop_first() == open_quotes@.skip(i + 1));
            }
            let ticket = pool.register(open_quotes[i].clone(), now, RESCAN_WAIT_SECS).ticket();
            proof {
                assert(ticket == registered_ticket(registration(before, rest[0]@)));
                assert(tickets@.push(ticket) + tickets_of_rescan(
                    pool@,
                    open_quotes@.skip(i + 1),
                    now,
                ) == tickets@ + (seq![ticket] + tickets_of_rescan(
                    pool@,
                    open_quotes@.skip(i + 1),
                    now,
                )));
            }
            tickets.push(ticket);
            i = i + 1;
        }
        proof {
            assert(open_quotes@.skip(i as int).len() == 0);
            assert(tickets@ + Seq::<Option<u64>>::empty() == tickets@);
        }
        core::mem::swap(&mut self.pending_mints, &mut pool);
        tickets
    }

    /// One pull of the stream of payment events.
    pub fn poll_payment_event(&mut self, resolved: Option<Resolution>) -> (action: PollAction)
        ensures
            final(self).pending() == pool_after_poll(old(self).pending(), resolved_view(resolved)),
            action@ == action_of_poll(old(self).pending(), resolved_view(resolved)),
            distinct_quotes(final(self).pending()),
            final(self).unit_price_cents() == old(self).unit_price_cents(),
            final(self).auth_token() == old(self).auth_token(),
            final(self).wait_active() == old(self).wait_active(),
    {
        let mut pool = PendingWaitPool::new();
        core::mem::swap(&mut self.pending_mints, &mut pool);
        let action = pool.poll(resolved);
        core::mem::swap(&mut self.pending_mints, &mut pool);
        action
    }

    /// Whether the stream of payment events is marked as live.
    pub fn is_wait_invoice_active(&self) -> (active: bool)
        ensures
            active == self.wait_active(),
    {
        self.wait_invoice_active
    }

    /// Marks the stream of payment events as stopped.
    pub fn cancel_wait_invoice(&mut self)
        ensures
            !final(self).wait_active(),
            final(self).pending() == old(self).pending(),
            final(self).unit_price_cents() == old(self).unit_price_cents(),
            final(self).auth_token() == old(self).auth_token(),
    {
        proof {
            use_type_invariant(&*self);
        }
        self.wait_invoice_active = false;
    }

    /// The payments received for a quote. `state` is what the upstream mint
    /// reports of the quote; `record` is what the store holds for it, read
    /// where the quote is paid. A paid quote is credited what its record
    /// says, and a paid quote without a record is an error.
    pub fn check_incoming_payment_status(
        &self,
        payment_identifier: &PaymentIdentifier,
        state: IncomingPaymentState,
        record: Option<QuoteCostRecord>,
    ) -> (status: Result<Vec<WaitPaymentResponse>, PaymentError>)
        ensures
            match status {
                Ok(received) => {
                    &&& payment_identifier@ matches PaymentIdentifierView::CustomId(quote_id)
                    &&& if state == IncomingPaymentState::Paid {
                        &&& record matches Some(found)
                        &&& received@.len() == 1
                        &&& received@[0].payment_identifier@ == payment_identifier@
                        &&& received@[0].payment_amount == found.credited_amount
                        &&& received@[0].unit@ == settlement_unit()
                        &&& received@[0].payment_id@ == quote_id
                    } else {
                        received@.len() == 0
                    }
                },
                Err(error) => if payment_identifier@ is CustomId {
                    &&& state == IncomingPaymentState::Paid
                    &&& record is None
                    &&& error == PaymentError::Reconciliation
                } else {
                    error == PaymentError::UnsupportedPaymentOption
                },
            },
    {
        let quote_id = match payment_identifier {
            PaymentIdentifier::CustomId(id) => id,
            _ => return Err(PaymentError::UnsupportedPaymentOption),
        };
        match state {
            IncomingPaymentState::Paid => match record {
                Some(found) => {
                    let mut received: Vec<WaitPaymentResponse> = Vec::new();
                    received.push(
                        WaitPaymentResponse {
                            payment_identifier: payment_identifier.duplicate(),
                            payment_amount: found.credited_amount,
                            unit: Unit::settlement(),
                            payment_id: quote_id.clone(),
                        },
                    );
                    Ok(received)
                },
                None => Err(PaymentError::Reconciliation),
            },
            _ => Ok(Vec::new()),
        }
    }
}

/// What becomes of a paid action under the identifier `payment_id`: paid, at
/// the cost of one credit, with the answer of the search service as proof.
pub fn paid_action_response(payment_id: String, answer: Option<String>) -> (made: Result<
    MakePaymentResponse,
    PaymentError,
>)
    ensures
        match made {
            Ok(response) => {
                &&& answer matches Some(text)
                &&& response.payment_lookup_id@ == PaymentIdentifierView::CustomId(payment_id@)
                &&& response.payment_proof matches Some(proof)
                &&& proof@ == text@
                &&& response.status == OutgoingPaymentState::Paid
                &&& response.total_spent == PAID_ACTION_COST
                &&& response.unit@ == settlement_unit()
            },
            Err(error) => answer is None && error == PaymentError::Rail(RailFailure::PaidAction),
        },
{
    match answer {
        Some(text) => Ok(
            MakePaymentResponse {
                payment_lookup_id: PaymentIdentifier::CustomId(payment_id),
                payment_proof: Some(text),
                status: OutgoingPaymentState::Paid,
                total_spent: PAID_ACTION_COST,
                unit: Unit::settlement(),
            },
        ),
        None => Err(PaymentError::Rail(RailFailure::PaidAction)),
    }
}

} // verus!
