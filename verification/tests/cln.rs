use athenut_mint::amount::{AmountError, Unit};
use athenut_mint::cln::{
    cln_invoice_status_to_mint_state, cln_pays_status_to_mint_state, finish_payment,
    incoming_amount_msat, invoice_created, invoice_request, needs_price, quote_amount,
    quote_of_invoice, response_of_invoice, Cln, Error, InvoiceEvent, Listed,
    ListinvoicesInvoicesStatus, ListpaysPaysStatus, MeltQuote, PayOutcome, PayRequest, PayStatus,
    PaysEntry, StreamAction, WaitanyinvoiceStatus, RPC_RETRY_SECS,
};
use athenut_mint::currency::ConversionError;
use athenut_mint::invoice::DecodedInvoice;
use athenut_mint::payment::{
    IncomingPaymentState, OutgoingPaymentState, PaymentError, PaymentIdentifier, RailFailure,
};

const INVOICE_2500U: &str = "lnbc2500u1pvjluezsp5zyg3zyg3zyg3zyg3zyg3zyg3zyg3zyg3zyg3zyg3zyg3zyg3zygspp5qqqsyqcyq5rqwzqfqqqsyqcyq5rqwzqfqqqsyqcyq5rqwzqfqypqdq5xysxxatsyp3k7enxv4jsxqzpu9qrsgquk0rl77nj30yxdy8j9vdx85fkpmdla2087ne0xh8nhedh8w27kyke0lp53ut353s06fv3qfegext0eh0ymjpf39tuven09sam30g4vgpfna3rh";
const INVOICE_NO_AMOUNT: &str = "lnbc1pvjluezsp5zyg3zyg3zyg3zyg3zyg3zyg3zyg3zyg3zyg3zyg3zyg3zyg3zygspp5qqqsyqcyq5rqwzqfqqqsyqcyq5rqwzqfqqqsyqcyq5rqwzqfqypqdpl2pkx2ctnv5sxxmmwwd5kgetjypeh2ursdae8g6twvus8g6rfwvs8qun0dfjkxaq9qrsgq357wnc5r2ueh7ck6q93dj32dlqnls087fxdwk8qakdyafkq3yap9us6v52vjjsrvywa6rt52cm9r9zqt8r2t7mlcwspyetp5h2tztugp9lfyql";
const PAYMENT_HASH: &str = "0001020304050607080900010203040506070809000102030405060708090102";

fn paid_invoice(pay_index: Option<u64>, hash: &str, bolt12: bool) -> InvoiceEvent {
    InvoiceEvent::Invoice {
        status: WaitanyinvoiceStatus::Paid,
        pay_index,
        payment_hash: hash.to_string(),
        bolt12,
    }
}

fn quote(unit: Unit) -> MeltQuote {
    MeltQuote { request: INVOICE_2500U.to_string(), unit }
}

#[test]
fn expired_invoice_counts_as_unpaid() {
    assert_eq!(
        cln_invoice_status_to_mint_state(ListinvoicesInvoicesStatus::Unpaid),
        IncomingPaymentState::Unpaid
    );
    assert_eq!(
        cln_invoice_status_to_mint_state(ListinvoicesInvoicesStatus::Paid),
        IncomingPaymentState::Paid
    );
    assert_eq!(
        cln_invoice_status_to_mint_state(ListinvoicesInvoicesStatus::Expired),
        IncomingPaymentState::Unpaid
    );
}

#[test]
fn listed_payment_states_map_to_payment_states() {
    assert_eq!(
        cln_pays_status_to_mint_state(ListpaysPaysStatus::Pending),
        OutgoingPaymentState::Pending
    );
    assert_eq!(
        cln_pays_status_to_mint_state(ListpaysPaysStatus::Complete),
        OutgoingPaymentState::Paid
    );
    assert_eq!(
        cln_pays_status_to_mint_state(ListpaysPaysStatus::Failed),
        OutgoingPaymentState::Failed
    );
}

#[test]
fn node_error_becomes_a_lightning_error() {
    assert_eq!(
        PaymentError::from(Error::WrongClnResponse),
        PaymentError::Lightning(Error::WrongClnResponse)
    );
    assert_eq!(PaymentError::from(Error::InvalidHash), PaymentError::Lightning(Error::InvalidHash));
}

#[test]
fn node_settings_are_in_millisatoshis() {
    let settings = Cln::new(2).get_settings();
    assert_eq!(settings.unit, Unit::Msat);
    assert!(settings.bolt11);
    assert!(settings.mpp);
    assert!(settings.invoice_description);
    assert!(!settings.amountless);
    assert!(!settings.bolt12);
}

#[test]
fn invoice_amount_is_read_in_the_unit_asked_for() {
    assert_eq!(
        quote_amount(INVOICE_2500U, &Unit::Msat),
        Ok((250_000_000, PAYMENT_HASH.to_string()))
    );
    assert_eq!(quote_amount(INVOICE_2500U, &Unit::Sat), Ok((250_000, PAYMENT_HASH.to_string())));
}

#[test]
fn invoice_amount_in_a_foreign_unit_is_refused() {
    assert_eq!(
        quote_amount(INVOICE_2500U, &Unit::Usd),
        Err(PaymentError::Amount(AmountError::CannotConvertUnits))
    );
    assert_eq!(
        quote_amount(INVOICE_2500U, &Unit::Custom("xsr".to_string())),
        Err(PaymentError::Amount(AmountError::CannotConvertUnits))
    );
}

#[test]
fn invoice_without_amount_cannot_be_quoted() {
    assert_eq!(
        quote_amount(INVOICE_NO_AMOUNT, &Unit::Sat),
        Err(PaymentError::Lightning(Error::UnknownInvoiceAmount))
    );
}

#[test]
fn text_that_is_no_invoice_is_refused() {
    assert_eq!(quote_amount("not an invoice", &Unit::Sat), Err(PaymentError::Parse));
    assert_eq!(quote_amount("", &Unit::Sat), Err(PaymentError::Parse));
}

#[test]
fn fee_reserve_is_the_greater_of_share_and_floor() {
    let cln = Cln::new(4);
    let low = cln.get_payment_quote(INVOICE_2500U, &Unit::Sat, 3).unwrap();
    assert_eq!(low.fee, 4);
    assert_eq!(low.amount, 250_000);
    assert_eq!(low.unit, Unit::Sat);
    assert_eq!(low.state, OutgoingPaymentState::Unpaid);
    assert_eq!(
        low.request_lookup_id,
        Some(PaymentIdentifier::PaymentHash(PAYMENT_HASH.to_string()))
    );
    let high = cln.get_payment_quote(INVOICE_2500U, &Unit::Sat, 2_500).unwrap();
    assert_eq!(high.fee, 2_500);
    let equal = cln.get_payment_quote(INVOICE_2500U, &Unit::Sat, 4).unwrap();
    assert_eq!(equal.fee, 4);
    assert_eq!(
        cln.get_payment_quote("garbage", &Unit::Sat, 4),
        Err(PaymentError::Parse)
    );
}

#[test]
fn paid_invoice_is_never_paid_again() {
    let cln = Cln::new(4);
    assert_eq!(
        cln.make_payment(&quote(Unit::Sat), None, 10, OutgoingPaymentState::Paid),
        Err(PaymentError::InvoiceAlreadyPaid)
    );
}

#[test]
fn pending_invoice_is_not_paid_twice() {
    let cln = Cln::new(4);
    assert_eq!(
        cln.make_payment(&quote(Unit::Sat), None, 10, OutgoingPaymentState::Pending),
        Err(PaymentError::InvoicePaymentPending)
    );
}

#[test]
fn other_states_let_the_payment_go_ahead() {
    let cln = Cln::new(4);
    for state in [
        OutgoingPaymentState::Unpaid,
        OutgoingPaymentState::Unknown,
        OutgoingPaymentState::Failed,
    ] {
        assert_eq!(
            cln.make_payment(&quote(Unit::Sat), Some(100), 10, state),
            Ok(PayRequest {
                bolt11: INVOICE_2500U.to_string(),
                maxfee_msat: 10_000,
                partial_msat: Some(100_000),
            })
        );
    }
}

#[test]
fn every_payment_is_bounded_by_the_fee_reserve() {
    let cln = Cln::new(4);
    // The share of the amount where it is the greater, the floor where not.
    assert_eq!(
        cln.make_payment(&quote(Unit::Msat), None, 2_500, OutgoingPaymentState::Unpaid),
        Ok(PayRequest {
            bolt11: INVOICE_2500U.to_string(),
            maxfee_msat: 2_500,
            partial_msat: None,
        })
    );
    assert_eq!(
        cln.make_payment(&quote(Unit::Msat), None, 0, OutgoingPaymentState::Unpaid),
        Ok(PayRequest { bolt11: INVOICE_2500U.to_string(), maxfee_msat: 4, partial_msat: None })
    );
    assert_eq!(
        cln.make_payment(&quote(Unit::Sat), None, 3, OutgoingPaymentState::Failed),
        Ok(PayRequest {
            bolt11: INVOICE_2500U.to_string(),
            maxfee_msat: 4_000,
            partial_msat: None,
        })
    );
}

#[test]
fn bounds_that_cannot_be_converted_stop_the_payment() {
    let cln = Cln::new(4);
    assert_eq!(
        cln.make_payment(&quote(Unit::Sat), None, u64::MAX, OutgoingPaymentState::Unpaid),
        Err(PaymentError::Amount(AmountError::AmountOverflow))
    );
    assert_eq!(
        cln.make_payment(&quote(Unit::Usd), Some(1), 1, OutgoingPaymentState::Unpaid),
        Err(PaymentError::Amount(AmountError::CannotConvertUnits))
    );
    assert_eq!(
        cln.make_payment(&quote(Unit::Sat), Some(u64::MAX), 1, OutgoingPaymentState::Unpaid),
        Err(PaymentError::Amount(AmountError::AmountOverflow))
    );
}

#[test]
fn finished_payment_carries_the_preimage_as_proof() {
    let outcome = PayOutcome {
        status: PayStatus::Complete,
        payment_preimage: vec![0x00, 0x0f, 0xa5, 0xff],
        payment_hash: PAYMENT_HASH.to_string(),
        amount_sent_msat: 250_123_456,
    };
    let made = finish_payment(Some(outcome), &Unit::Sat).unwrap();
    assert_eq!(made.payment_proof, Some("000fa5ff".to_string()));
    assert_eq!(made.payment_lookup_id, PaymentIdentifier::PaymentHash(PAYMENT_HASH.to_string()));
    assert_eq!(made.status, OutgoingPaymentState::Paid);
    assert_eq!(made.total_spent, 250_123);
    assert_eq!(made.unit, Unit::Sat);
}

#[test]
fn finished_payment_reports_the_state_of_the_node() {
    for (status, state) in [
        (PayStatus::Complete, OutgoingPaymentState::Paid),
        (PayStatus::Pending, OutgoingPaymentState::Pending),
        (PayStatus::Failed, OutgoingPaymentState::Failed),
    ] {
        let outcome = PayOutcome {
            status,
            payment_preimage: Vec::new(),
            payment_hash: PAYMENT_HASH.to_string(),
            amount_sent_msat: 1,
        };
        let made = finish_payment(Some(outcome), &Unit::Msat).unwrap();
        assert_eq!(made.status, state);
        assert_eq!(made.payment_proof, Some(String::new()));
        assert_eq!(made.total_spent, 1);
    }
}

#[test]
fn wrong_answer_to_a_payment_is_an_error() {
    assert_eq!(
        finish_payment(None, &Unit::Sat),
        Err(PaymentError::Lightning(Error::WrongClnResponse))
    );
    let outcome = PayOutcome {
        status: PayStatus::Complete,
        payment_preimage: Vec::new(),
        payment_hash: PAYMENT_HASH.to_string(),
        amount_sent_msat: 1,
    };
    assert_eq!(
        finish_payment(Some(outcome), &Unit::Eur),
        Err(PaymentError::Amount(AmountError::CannotConvertUnits))
    );
}

#[test]
fn credits_are_priced_and_other_units_converted() {
    let xsr = Unit::Custom("xsr".to_string());
    assert!(needs_price(&xsr));
    assert!(!needs_price(&Unit::Sat));
    assert!(!needs_price(&Unit::Custom("XSR".to_string())));
    // 111 credits at 3 cents are 333 cents.
    assert_eq!(incoming_amount_msat(111, &xsr, Some(60_000)), Ok(5_550_000));
    assert_eq!(
        incoming_amount_msat(111, &xsr, None),
        Err(PaymentError::Rail(RailFailure::PriceOracle))
    );
    assert_eq!(
        incoming_amount_msat(111, &xsr, Some(0)),
        Err(PaymentError::Conversion(ConversionError::MissingPrice))
    );
    assert_eq!(incoming_amount_msat(21, &Unit::Sat, None), Ok(21_000));
    assert_eq!(incoming_amount_msat(21, &Unit::Msat, Some(1)), Ok(21));
    assert_eq!(
        incoming_amount_msat(u64::MAX, &Unit::Sat, None),
        Err(PaymentError::Amount(AmountError::AmountOverflow))
    );
    assert_eq!(
        incoming_amount_msat(21, &Unit::Auth, None),
        Err(PaymentError::Amount(AmountError::CannotConvertUnits))
    );
}

#[test]
fn invoice_request_expires_relative_to_now() {
    let request =
        invoice_request(21_000, "a search".to_string(), Some(1_000), 400, "label-1".to_string())
            .unwrap();
    assert_eq!(request.amount_msat, 21_000);
    assert_eq!(request.description, "a search");
    assert_eq!(request.label, "label-1");
    assert_eq!(request.expiry, Some(600));
    let open = invoice_request(1, String::new(), None, 400, "label-2".to_string()).unwrap();
    assert_eq!(open.expiry, None);
    let at_once =
        invoice_request(1, String::new(), Some(400), 400, "label-3".to_string()).unwrap();
    assert_eq!(at_once.expiry, Some(0));
}

#[test]
fn invoice_request_for_a_time_that_has_passed_is_refused() {
    assert_eq!(
        invoice_request(1, String::new(), Some(399), 400, "label".to_string()),
        Err(PaymentError::InvalidExpiry)
    );
    assert_eq!(
        invoice_request(1, String::new(), Some(0), u64::MAX, "label".to_string()),
        Err(PaymentError::InvalidExpiry)
    );
}

#[test]
fn quote_of_a_decoded_invoice_is_its_amount_and_hash() {
    let decoded = |amount_msat: Option<u64>| DecodedInvoice {
        payment_hash: PAYMENT_HASH.to_string(),
        amount_msat,
        expires_at: Some(77),
        text: "lnbc1".to_string(),
    };
    assert_eq!(
        quote_of_invoice(Some(decoded(Some(21_999))), &Unit::Sat),
        Ok((21, PAYMENT_HASH.to_string()))
    );
    assert_eq!(
        quote_of_invoice(Some(decoded(Some(21_999))), &Unit::Msat),
        Ok((21_999, PAYMENT_HASH.to_string()))
    );
    assert_eq!(
        quote_of_invoice(Some(decoded(Some(21_999))), &Unit::Usd),
        Err(PaymentError::Amount(AmountError::CannotConvertUnits))
    );
    assert_eq!(
        quote_of_invoice(Some(decoded(None)), &Unit::Sat),
        Err(PaymentError::Lightning(Error::UnknownInvoiceAmount))
    );
    assert_eq!(quote_of_invoice(None, &Unit::Sat), Err(PaymentError::Parse));
}

#[test]
fn response_of_a_decoded_invoice_carries_hash_text_and_expiry() {
    let created = response_of_invoice(Some(DecodedInvoice {
        payment_hash: PAYMENT_HASH.to_string(),
        amount_msat: None,
        expires_at: Some(77),
        text: "lnbc1".to_string(),
    }))
    .unwrap();
    assert_eq!(created.request_lookup_id, PaymentIdentifier::PaymentHash(PAYMENT_HASH.to_string()));
    assert_eq!(created.request, "lnbc1");
    assert_eq!(created.expiry, Some(77));
    assert_eq!(response_of_invoice(None), Err(PaymentError::Parse));
}

#[test]
fn invoice_request_gets_a_fresh_label() {
    let cln = Cln::new(4);
    let first = cln.create_incoming_payment_request(21_000, "a".to_string(), None).unwrap();
    let second = cln.create_incoming_payment_request(21_000, "a".to_string(), None).unwrap();
    assert_eq!(first.label.len(), 36);
    assert_ne!(first.label, second.label);
    assert_eq!(first.amount_msat, 21_000);
    assert_eq!(first.description, "a");
    assert_eq!(first.expiry, None);
    let later = cln
        .create_incoming_payment_request(21_000, "a".to_string(), Some(u64::MAX))
        .unwrap();
    let left = later.expiry.unwrap();
    // The clock of the test is somewhere after 2020 and before the end of time.
    assert!(left < u64::MAX - 1_577_836_800);
}

#[test]
fn invoice_that_expired_already_is_refused() {
    let cln = Cln::new(4);
    assert_eq!(
        cln.create_incoming_payment_request(21_000, "a".to_string(), Some(1)),
        Err(PaymentError::InvalidExpiry)
    );
}

#[test]
fn created_invoice_is_looked_up_by_its_payment_hash() {
    let created = invoice_created(Some(INVOICE_2500U)).unwrap();
    assert_eq!(created.request_lookup_id, PaymentIdentifier::PaymentHash(PAYMENT_HASH.to_string()));
    assert_eq!(created.request, INVOICE_2500U);
    // Issued at 1496314658 for sixty seconds.
    assert_eq!(created.expiry, Some(1_496_314_718));
}

#[test]
fn created_invoice_must_be_an_invoice() {
    assert_eq!(
        invoice_created(None),
        Err(PaymentError::Lightning(Error::WrongClnResponse))
    );
    assert_eq!(invoice_created(Some("lnbc1broken")), Err(PaymentError::Parse));
}

#[test]
fn incoming_status_is_that_of_the_first_invoice() {
    let cln = Cln::new(4);
    assert_eq!(
        cln.check_incoming_payment_status(Listed::Entry(ListinvoicesInvoicesStatus::Paid)),
        Ok(IncomingPaymentState::Paid)
    );
    assert_eq!(
        cln.check_incoming_payment_status(Listed::Entry(ListinvoicesInvoicesStatus::Unpaid)),
        Ok(IncomingPaymentState::Unpaid)
    );
    assert_eq!(
        cln.check_incoming_payment_status(Listed::Entry(ListinvoicesInvoicesStatus::Expired)),
        Ok(IncomingPaymentState::Unpaid)
    );
    assert_eq!(cln.check_incoming_payment_status(Listed::Empty), Err(Error::WrongClnResponse));
    assert_eq!(
        cln.check_incoming_payment_status(Listed::WrongResponse),
        Err(Error::WrongClnResponse)
    );
}

#[test]
fn payment_hash_is_sixty_four_hex_digits() {
    let cln = Cln::new(4);
    assert!(cln.is_valid_payment_hash(PAYMENT_HASH));
    assert!(cln.is_valid_payment_hash(&"AbCdEf09".repeat(8)));
    assert!(!cln.is_valid_payment_hash(""));
    assert!(!cln.is_valid_payment_hash(&PAYMENT_HASH[..63]));
    assert!(!cln.is_valid_payment_hash(&format!("{}0", PAYMENT_HASH)));
    assert!(!cln.is_valid_payment_hash(&"g".repeat(64)));
    assert!(!cln.is_valid_payment_hash(&"é".repeat(32)));
}

#[test]
fn unknown_payment_is_reported_as_unknown() {
    let cln = Cln::new(4);
    let status = cln.check_outgoing_payment(PAYMENT_HASH, Listed::Empty).unwrap();
    assert_eq!(status.payment_lookup_id, PaymentIdentifier::PaymentHash(PAYMENT_HASH.to_string()));
    assert_eq!(status.payment_proof, None);
    assert_eq!(status.status, OutgoingPaymentState::Unknown);
    assert_eq!(status.total_spent, 0);
    assert_eq!(status.unit, Unit::Msat);
}

#[test]
fn listed_payment_is_reported_with_its_proof() {
    let cln = Cln::new(4);
    let entry = PaysEntry {
        status: ListpaysPaysStatus::Complete,
        payment_hash: PAYMENT_HASH.to_string(),
        preimage: Some(vec![0xde, 0xad, 0xbe, 0xef, 0x01]),
        amount_sent_msat: Some(250_001_000),
    };
    let status = cln.check_outgoing_payment(PAYMENT_HASH, Listed::Entry(entry)).unwrap();
    assert_eq!(status.payment_proof, Some("deadbeef01".to_string()));
    assert_eq!(status.status, OutgoingPaymentState::Paid);
    assert_eq!(status.total_spent, 250_001_000);
    assert_eq!(status.unit, Unit::Msat);
    let pending = PaysEntry {
        status: ListpaysPaysStatus::Pending,
        payment_hash: PAYMENT_HASH.to_string(),
        preimage: None,
        amount_sent_msat: None,
    };
    let status = cln.check_outgoing_payment(PAYMENT_HASH, Listed::Entry(pending)).unwrap();
    assert_eq!(status.payment_proof, None);
    assert_eq!(status.status, OutgoingPaymentState::Pending);
    assert_eq!(status.total_spent, 0);
}

#[test]
fn outgoing_check_refuses_bad_hashes_and_wrong_answers() {
    let cln = Cln::new(4);
    assert_eq!(cln.check_outgoing_payment("xyz", Listed::Empty), Err(Error::InvalidHash));
    assert_eq!(
        cln.check_outgoing_payment(PAYMENT_HASH, Listed::WrongResponse),
        Err(Error::WrongClnResponse)
    );
}

#[test]
fn last_pay_index_is_that_of_the_last_invoice() {
    let cln = Cln::new(4);
    assert_eq!(cln.get_last_pay_index(Listed::Entry(Some(17))), Ok(Some(17)));
    assert_eq!(cln.get_last_pay_index(Listed::Entry(None)), Ok(None));
    assert_eq!(cln.get_last_pay_index(Listed::Empty), Ok(None));
    assert_eq!(cln.get_last_pay_index(Listed::WrongResponse), Err(Error::WrongClnResponse));
}

#[test]
fn pull_makes_the_stream_live_and_polls_after_the_cursor() {
    let mut cln = Cln::new(4);
    assert!(!cln.is_wait_invoice_active());
    cln.wait_any_incoming_payment(Some(17));
    assert_eq!(
        cln.on_invoice_event(InvoiceEvent::Pull),
        StreamAction::Poll { lastpay_index: Some(17) }
    );
    assert!(cln.is_wait_invoice_active());
}

#[test]
fn paid_invoice_is_yielded_and_moves_the_cursor() {
    let mut cln = Cln::new(4);
    cln.on_invoice_event(InvoiceEvent::Pull);
    assert_eq!(
        cln.on_invoice_event(paid_invoice(Some(5), PAYMENT_HASH, false)),
        StreamAction::Yield { lookup_id: PaymentIdentifier::PaymentHash(PAYMENT_HASH.to_string()) }
    );
    assert_eq!(
        cln.on_invoice_event(InvoiceEvent::Pull),
        StreamAction::Poll { lastpay_index: Some(5) }
    );
}

#[test]
fn expired_invoice_is_passed_over_without_moving_the_cursor() {
    let mut cln = Cln::new(4);
    cln.wait_any_incoming_payment(Some(3));
    cln.on_invoice_event(InvoiceEvent::Pull);
    let expired = InvoiceEvent::Invoice {
        status: WaitanyinvoiceStatus::Expired,
        pay_index: Some(9),
        payment_hash: PAYMENT_HASH.to_string(),
        bolt12: false,
    };
    assert_eq!(cln.on_invoice_event(expired), StreamAction::Poll { lastpay_index: Some(3) });
    assert!(cln.is_wait_invoice_active());
}

#[test]
fn cursor_never_moves_back() {
    let mut cln = Cln::new(4);
    cln.wait_any_incoming_payment(Some(10));
    cln.on_invoice_event(InvoiceEvent::Pull);
    cln.on_invoice_event(paid_invoice(Some(4), PAYMENT_HASH, false));
    assert_eq!(
        cln.on_invoice_event(InvoiceEvent::Unreadable),
        StreamAction::Poll { lastpay_index: Some(10) }
    );
    cln.on_invoice_event(paid_invoice(None, PAYMENT_HASH, false));
    assert_eq!(
        cln.on_invoice_event(InvoiceEvent::Unreadable),
        StreamAction::Poll { lastpay_index: Some(10) }
    );
    cln.on_invoice_event(paid_invoice(Some(11), PAYMENT_HASH, false));
    assert_eq!(
        cln.on_invoice_event(InvoiceEvent::Unreadable),
        StreamAction::Poll { lastpay_index: Some(11) }
    );
}

#[test]
fn failed_call_pauses_and_retries() {
    let mut cln = Cln::new(4);
    cln.wait_any_incoming_payment(Some(2));
    cln.on_invoice_event(InvoiceEvent::Pull);
    assert_eq!(
        cln.on_invoice_event(InvoiceEvent::RpcFailed),
        StreamAction::Backoff { secs: 1, lastpay_index: Some(2) }
    );
    assert_eq!(RPC_RETRY_SECS, 1);
    assert!(cln.is_wait_invoice_active());
}

#[test]
fn offer_payment_is_yielded_under_its_offer() {
    let mut cln = Cln::new(4);
    cln.on_invoice_event(InvoiceEvent::Pull);
    assert_eq!(
        cln.on_invoice_event(paid_invoice(Some(5), PAYMENT_HASH, true)),
        StreamAction::Lookup { payment_hash: PAYMENT_HASH.to_string() }
    );
    assert_eq!(
        cln.on_invoice_event(InvoiceEvent::LookedUp { local_offer_id: Some("offer-1".to_string()) }),
        StreamAction::Yield { lookup_id: PaymentIdentifier::OfferId("offer-1".to_string()) }
    );
}

#[test]
fn failed_lookup_of_an_offer_payment_does_not_end_the_stream() {
    for lookup in [
        InvoiceEvent::LookupFailed,
        InvoiceEvent::LookupEmpty,
        InvoiceEvent::LookedUp { local_offer_id: None },
    ] {
        let mut cln = Cln::new(4);
        cln.on_invoice_event(InvoiceEvent::Pull);
        cln.on_invoice_event(paid_invoice(Some(5), PAYMENT_HASH, true));
        // The notification is passed over; the stream polls on after it.
        assert_eq!(cln.on_invoice_event(lookup), StreamAction::Poll { lastpay_index: Some(5) });
        assert!(cln.is_wait_invoice_active());
        assert_eq!(
            cln.on_invoice_event(paid_invoice(Some(6), PAYMENT_HASH, false)),
            StreamAction::Yield { lookup_id: PaymentIdentifier::PaymentHash(PAYMENT_HASH.to_string()) }
        );
    }
}

#[test]
fn cancelled_stream_stops_and_is_no_longer_live() {
    let mut cln = Cln::new(4);
    cln.on_invoice_event(InvoiceEvent::Pull);
    assert!(cln.is_wait_invoice_active());
    cln.cancel_wait_invoice();
    // The stream is not live from the cancel on, whether or not it is pulled again.
    assert!(!cln.is_wait_invoice_active());
    assert_eq!(
        cln.on_invoice_event(paid_invoice(Some(5), PAYMENT_HASH, false)),
        StreamAction::Stop
    );
    assert!(!cln.is_wait_invoice_active());
    assert_eq!(cln.on_invoice_event(InvoiceEvent::Pull), StreamAction::Stop);
    assert_eq!(cln.on_invoice_event(InvoiceEvent::RpcFailed), StreamAction::Stop);
    assert!(!cln.is_wait_invoice_active());
}

#[test]
fn stream_that_was_never_pulled_is_not_live() {
    let mut cln = Cln::new(4);
    assert!(!cln.is_wait_invoice_active());
    cln.wait_any_incoming_payment(Some(3));
    assert!(!cln.is_wait_invoice_active());
    cln.cancel_wait_invoice();
    assert!(!cln.is_wait_invoice_active());
}

#[test]
fn cancellation_seen_by_the_stream_ends_it() {
    let mut cln = Cln::new(4);
    cln.on_invoice_event(InvoiceEvent::Pull);
    assert_eq!(cln.on_invoice_event(InvoiceEvent::Cancelled), StreamAction::Stop);
    assert!(!cln.is_wait_invoice_active());
    assert_eq!(cln.on_invoice_event(InvoiceEvent::Pull), StreamAction::Stop);
}
