use athenut_mint::ledger::{confirm, record_for, QuoteCostRecord};
use athenut_mint::payment::PaymentError;
use athenut_mint::pool::{
    PaymentConfirmed, PaymentEvent, PendingWaitPool, PollAction, Registration, Resolution,
    IDLE_BACKOFF_MILLIS,
};

fn confirmed(quote: &str, amount: u64) -> Option<PaymentConfirmed> {
    Some(PaymentConfirmed { quote_id: quote.to_string(), settlement_amount: amount })
}

fn emitted(action: PollAction) -> Option<(String, u64)> {
    match action {
        PollAction::Emit(PaymentEvent::PaymentReceived { quote_id, settlement_amount }) => {
            Some((quote_id, settlement_amount))
        }
        _ => None,
    }
}

#[test]
fn new_pool_is_empty() {
    let pool = PendingWaitPool::new();
    assert!(pool.is_empty());
    assert_eq!(pool.len(), 0);
    assert!(!pool.is_pending(0));
}

#[test]
fn tickets_count_up_from_zero() {
    let mut pool = PendingWaitPool::new();
    assert_eq!(pool.register("a".to_string(), 10, 500), Registration::Registered(0));
    assert_eq!(pool.register("b".to_string(), 11, 500), Registration::Registered(1));
    assert_eq!(pool.register("c".to_string(), 12, 5), Registration::Registered(2));
    assert_eq!(pool.len(), 3);
    assert_eq!(pool.timeout_secs(1), Some(500));
    assert_eq!(pool.timeout_secs(2), Some(5));
    assert_eq!(pool.timeout_secs(3), None);
    assert!(pool.is_pending(0) && pool.is_pending(1) && pool.is_pending(2));
    assert!(!pool.is_pending(3));
    assert_eq!(Registration::Registered(2).ticket(), Some(2));
    assert_eq!(Registration::AlreadyPending.ticket(), None);
    assert_eq!(Registration::Exhausted.ticket(), None);
}

#[test]
fn quote_with_a_pending_wait_is_not_registered_again() {
    let mut pool = PendingWaitPool::new();
    assert_eq!(pool.register("a".to_string(), 10, 500), Registration::Registered(0));
    assert!(pool.is_quote_pending(&"a".to_string()));
    assert!(!pool.is_quote_pending(&"b".to_string()));
    assert_eq!(pool.register("a".to_string(), 12, 5), Registration::AlreadyPending);
    assert_eq!(pool.len(), 1);
    // The wait that was there is the one that stays.
    assert_eq!(pool.timeout_secs(0), Some(500));
    assert_eq!(pool.register("b".to_string(), 12, 5), Registration::Registered(1));
    // Once the wait has resolved, the quote can be waited for again.
    pool.poll(Some(Resolution { ticket: 0, outcome: None }));
    assert!(!pool.is_quote_pending(&"a".to_string()));
    assert_eq!(pool.register("a".to_string(), 13, 5), Registration::Registered(2));
}

#[test]
fn no_two_events_carry_the_same_quote() {
    let mut pool = PendingWaitPool::new();
    let first = pool.register("quote-1".to_string(), 10, 500).ticket().unwrap();
    assert_eq!(pool.register("quote-1".to_string(), 20, 5), Registration::AlreadyPending);
    let other = pool.register("quote-2".to_string(), 10, 500).ticket().unwrap();
    let mut quotes: Vec<String> = Vec::new();
    let resolutions = vec![
        Resolution { ticket: first, outcome: confirmed("quote-1", 7) },
        Resolution { ticket: first, outcome: confirmed("quote-1", 7) },
        // A confirmation of another quote than the wait's is not emitted.
        Resolution { ticket: other, outcome: confirmed("quote-1", 7) },
        Resolution { ticket: other, outcome: confirmed("quote-2", 9) },
    ];
    for resolution in resolutions {
        if let Some((quote, _)) = emitted(pool.poll(Some(resolution))) {
            quotes.push(quote);
        }
    }
    assert_eq!(quotes, vec!["quote-1".to_string()]);
    assert!(pool.is_empty());
}

#[test]
fn idle_pull_asks_for_a_pause() {
    let mut pool = PendingWaitPool::new();
    pool.register("a".to_string(), 10, 500);
    match pool.poll(None) {
        PollAction::Backoff { millis } => {
            assert_eq!(millis, 100);
            assert_eq!(millis, IDLE_BACKOFF_MILLIS);
        }
        _ => panic!("an idle pull pauses"),
    }
    assert_eq!(pool.len(), 1);
}

#[test]
fn confirmed_wait_is_emitted_and_leaves_the_pool() {
    let mut pool = PendingWaitPool::new();
    let ticket = pool.register("quote-1".to_string(), 10, 500).ticket().unwrap();
    let action = pool.poll(Some(Resolution { ticket, outcome: confirmed("quote-1", 7) }));
    assert_eq!(emitted(action), Some(("quote-1".to_string(), 7)));
    assert!(pool.is_empty());
    assert!(!pool.is_pending(ticket));
}

#[test]
fn wait_without_confirmation_is_dropped_silently() {
    let mut pool = PendingWaitPool::new();
    let ticket = pool.register("quote-1".to_string(), 10, 500).ticket().unwrap();
    let action = pool.poll(Some(Resolution { ticket, outcome: None }));
    assert!(matches!(action, PollAction::Skip));
    assert!(pool.is_empty());
}

#[test]
fn a_wait_is_observed_at_most_once() {
    let mut pool = PendingWaitPool::new();
    let ticket = pool.register("quote-1".to_string(), 10, 500).ticket().unwrap();
    let other = pool.register("quote-2".to_string(), 10, 500).ticket().unwrap();
    let first = pool.poll(Some(Resolution { ticket, outcome: confirmed("quote-1", 7) }));
    assert!(emitted(first).is_some());
    let second = pool.poll(Some(Resolution { ticket, outcome: confirmed("quote-1", 7) }));
    assert!(matches!(second, PollAction::Skip));
    assert_eq!(pool.len(), 1);
    assert!(pool.is_pending(other));
}

#[test]
fn unknown_ticket_changes_nothing() {
    let mut pool = PendingWaitPool::new();
    pool.register("quote-1".to_string(), 10, 500);
    let action = pool.poll(Some(Resolution { ticket: 99, outcome: confirmed("x", 1) }));
    assert!(matches!(action, PollAction::Skip));
    assert_eq!(pool.len(), 1);
}

#[test]
fn stream_yields_one_event_for_each_confirmation() {
    let mut pool = PendingWaitPool::new();
    let mut tickets: Vec<u64> = Vec::new();
    for i in 0..6 {
        tickets.push(pool.register(format!("quote-{}", i), 10, 500).ticket().unwrap());
    }
    // The waits resolve out of order; every second one is confirmed.
    let order = [3usize, 0, 5, 1, 4, 2];
    let mut events: Vec<(String, u64)> = Vec::new();
    for position in order {
        let outcome = if position % 2 == 0 {
            confirmed(&format!("quote-{}", position), position as u64 + 1)
        } else {
            None
        };
        let action = pool.poll(Some(Resolution { ticket: tickets[position], outcome }));
        if let Some(event) = emitted(action) {
            events.push(event);
        }
    }
    assert_eq!(
        events,
        vec![
            ("quote-0".to_string(), 1),
            ("quote-4".to_string(), 5),
            ("quote-2".to_string(), 3)
        ]
    );
    assert!(pool.is_empty());
    // Nothing is left to resolve a second time.
    for ticket in tickets {
        let action = pool.poll(Some(Resolution { ticket, outcome: confirmed("late", 9) }));
        assert!(matches!(action, PollAction::Skip));
    }
}

#[test]
fn removing_from_the_middle_keeps_the_others() {
    let mut pool = PendingWaitPool::new();
    let a = pool.register("a".to_string(), 1, 5).ticket().unwrap();
    let b = pool.register("b".to_string(), 1, 5).ticket().unwrap();
    let c = pool.register("c".to_string(), 1, 5).ticket().unwrap();
    pool.poll(Some(Resolution { ticket: b, outcome: None }));
    assert!(pool.is_pending(a) && !pool.is_pending(b) && pool.is_pending(c));
    assert_eq!(pool.register("d".to_string(), 1, 5), Registration::Registered(3));
}

#[test]
fn credit_is_the_recorded_settlement_amount() {
    let record = record_for(5_550, 111);
    assert_eq!(record, QuoteCostRecord { cost_native_unit: 5_550, credited_amount: 111 });
    let credited = confirm("quote-1".to_string(), Some(record)).ok().unwrap();
    assert_eq!(credited.quote_id, "quote-1");
    assert_eq!(credited.settlement_amount, 111);
}

#[test]
fn confirmed_quote_without_record_credits_nothing() {
    match confirm("quote-1".to_string(), None) {
        Err(error) => assert_eq!(error, PaymentError::Reconciliation),
        Ok(_) => panic!("a quote without a record is not credited"),
    }
}
