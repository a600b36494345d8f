//! The pool of pending payment waits and the single stream of events that is
//! pulled from it.
//!
//! A wait is registered when a quote is handed out and leaves the pool the
//! moment it resolves, whatever the outcome. A quote has at most one wait in
//! flight: asking for a second one adds nothing. A pull that finds a resolved
//! wait emits its confirmation, or nothing where it resolved without one; a
//! pull that finds none asks for a short pause. So the confirmation of a
//! quote is observed at most once among the waits in flight.

use vstd::prelude::*;

verus! {

/// Milliseconds to pause after a pull that found no resolved wait.
pub const IDLE_BACKOFF_MILLIS: u64 = 100;

/// What a wait resolves to when its quote was paid.
#[derive(Debug, PartialEq, Eq)]
pub struct PaymentConfirmed {
    pub quote_id: String,
    pub settlement_amount: u64,
}

/// An event of the merged stream.
#[derive(Debug, PartialEq, Eq)]
pub enum PaymentEvent {
    /// A quote was paid; `settlement_amount` is to be credited for it.
    PaymentReceived { quote_id: String, settlement_amount: u64 },
}

/// A wait that resolved, and what it resolved to: a confirmation, or nothing
/// where it timed out or the rail reported no payment.
#[derive(Debug, PartialEq, Eq)]
pub struct Resolution {
    pub ticket: u64,
    pub outcome: Option<PaymentConfirmed>,
}

/// What the puller of the stream does next.
#[derive(Debug, PartialEq, Eq)]
pub enum PollAction {
    /// Hand the event on.
    Emit(PaymentEvent),
    /// A wait resolved without a confirmation, or was no longer pending: pull again.
    Skip,
    /// Nothing has resolved: pause this many milliseconds, then pull again.
    Backoff { millis: u64 },
}

/// A wait in flight.
#[derive(Debug, PartialEq, Eq)]
pub struct PendingWait {
    pub ticket: u64,
    pub quote_id: String,
    pub started_at: u64,
    pub timeout_secs: u64,
}

/// What became of a registration.
#[derive(Clone, Copy, Debug, PartialEq, Eq, Structural)]
pub enum Registration {
    /// A wait joined the pool under this ticket.
    Registered(u64),
    /// A wait for the quote is in flight already: none was added.
    AlreadyPending,
    /// Every ticket has been handed out: none was added.
    Exhausted,
}

/// A confirmation as plain values.
pub struct ConfirmedView {
    pub quote_id: Seq<char>,
    pub settlement_amount: u64,
}

/// A resolution as plain values.
pub struct ResolutionView {
    pub ticket: u64,
    pub outcome: Option<ConfirmedView>,
}

/// A pending wait as plain values.
pub struct WaitView {
    pub quote_id: Seq<char>,
    pub started_at: u64,
    pub timeout_secs: u64,
}

/// The pool as a map from the ticket of each pending wait to the wait, and
/// the ticket that the next registration receives.
pub struct PoolView {
    pub waits: Map<u64, WaitView>,
    pub next_ticket: nat,
}

/// What a pull does next, as plain values.
pub enum PollActionView {
    Emit(ConfirmedView),
    Skip,
    Backoff { millis: u64 },
}

impl View for PaymentConfirmed {
    type V = ConfirmedView;

    open spec fn view(&self) -> ConfirmedView {
        ConfirmedView { quote_id: self.quote_id@, settlement_amount: self.settlement_amount }
    }
}

impl View for PaymentEvent {
    type V = ConfirmedView;

    open spec fn view(&self) -> ConfirmedView {
        match self {
            PaymentEvent::PaymentReceived { quote_id, settlement_amount } => ConfirmedView {
                quote_id: quote_id@,
                settlement_amount: *settlement_amount,
            },
        }
    }
}

impl View for Resolution {
    type V = ResolutionView;

    open spec fn view(&self) -> ResolutionView {
        ResolutionView {
            ticket: self.ticket,
            outcome: match self.outcome {
                Some(confirmed) => Some(confirmed@),
                None => None,
            },
        }
    }
}

impl View for PendingWait {
    type V = WaitView;

    open spec fn view(&self) -> WaitView {
        WaitView {
            quote_id: self.quote_id@,
            started_at: self.started_at,
            timeout_secs: self.timeout_secs,
        }
    }
}

impl View for PollAction {
    type V = PollActionView;

    open spec fn view(&self) -> PollActionView {
        match self {
            PollAction::Emit(event) => PollActionView::Emit(event@),
            PollAction::Skip => PollActionView::Skip,
            PollAction::Backoff { millis } => PollActionView::Backoff { millis: *millis },
        }
    }
}

/// The view of an optional resolution.
pub open spec fn resolved_view(resolved: Option<Resolution>) -> Option<ResolutionView> {
    match resolved {
        Some(resolution) => Some(resolution@),
        None => None,
    }
}

/// Whether a wait for the quote is in flight.
pub open spec fn quote_pending(pool: PoolView, quote_id: Seq<char>) -> bool {
    exists|ticket: u64| #[trigger]
        pool.waits.dom().contains(ticket) && pool.waits[ticket].quote_id == quote_id
}

/// No two waits in flight are for the same quote.
pub open spec fn distinct_quotes(pool: PoolView) -> bool {
    forall|a: u64, b: u64|
        #![trigger pool.waits.dom().contains(a), pool.waits.dom().contains(b)]
        pool.waits.dom().contains(a) && pool.waits.dom().contains(b) && a != b
            ==> pool.waits[a].quote_id != pool.waits[b].quote_id
}

/// What becomes of a registration: a quote that has a wait in flight gets no
/// second one, and none is added once every ticket has been handed out.
pub open spec fn registration(pool: PoolView, quote_id: Seq<char>) -> Registration {
    if quote_pending(pool, quote_id) {
        Registration::AlreadyPending
    } else if pool.next_ticket >= u64::MAX {
        Registration::Exhausted
    } else {
        Registration::Registered(pool.next_ticket as u64)
    }
}

/// The ticket of the wait that a registration added, if it added one.
pub open spec fn registered_ticket(outcome: Registration) -> Option<u64> {
    match outcome {
        Registration::Registered(ticket) => Some(ticket),
        _ => None,
    }
}

impl Registration {
    /// The ticket of the wait that was added, if one was.
    pub fn ticket(self) -> (ticket: Option<u64>)
        ensures
            ticket == registered_ticket(self),
    {
        match self {
            Registration::Registered(ticket) => Some(ticket),
            _ => None,
        }
    }
}

/// The pool after a wait for `quote_id` was asked for: with the wait under
/// the next ticket where one was registered, unchanged otherwise.
pub open spec fn pool_after_register(
    pool: PoolView,
    quote_id: Seq<char>,
    started_at: u64,
    timeout_secs: u64,
) -> PoolView {
    match registration(pool, quote_id) {
        Registration::Registered(ticket) => PoolView {
            waits: pool.waits.insert(ticket, WaitView { quote_id, started_at, timeout_secs }),
            next_ticket: pool.next_ticket + 1,
        },
        _ => pool,
    }
}

/// The pool after a pull: the resolved wait has left it.
pub open spec fn pool_after_poll(pool: PoolView, resolved: Option<ResolutionView>) -> PoolView {
    match resolved {
        Some(resolution) => PoolView {
            waits: pool.waits.remove(resolution.ticket),
            next_ticket: pool.next_ticket,
        },
        None => pool,
    }
}

/// The event that a pull emits: the confirmation that a wait resolved to,
/// where the wait was still pending and the confirmation is of the quote
/// that the wait was for; none otherwise.
pub open spec fn event_of_poll(pool: PoolView, resolved: Option<ResolutionView>) -> Option<
    ConfirmedView,
> {
    match resolved {
        Some(resolution) => match resolution.outcome {
            Some(confirmed) => if pool.waits.dom().contains(resolution.ticket)
                && pool.waits[resolution.ticket].quote_id == confirmed.quote_id {
                Some(confirmed)
            } else {
                None
            },
            None => None,
        },
        None => None,
    }
}

/// What a pull does next.
pub open spec fn action_of_poll(pool: PoolView, resolved: Option<ResolutionView>) -> PollActionView {
    match resolved {
        None => PollActionView::Backoff { millis: IDLE_BACKOFF_MILLIS },
        Some(_) => match event_of_poll(pool, resolved) {
            Some(confirmed) => PollActionView::Emit(confirmed),
            None => PollActionView::Skip,
        },
    }
}

/// The events that the stream yields while the given waits resolve one after
/// another, in that order.
pub open spec fn events_of_run(pool: PoolView, resolutions: Seq<ResolutionView>) -> Seq<
    ConfirmedView,
>
    decreases resolutions.len(),
{
    if resolutions.len() == 0 {
        Seq::empty()
    } else {
        let first = Some(resolutions[0]);
        let rest = events_of_run(pool_after_poll(pool, first), resolutions.drop_first());
        match event_of_poll(pool, first) {
            Some(confirmed) => seq![confirmed] + rest,
            None => rest,
        }
    }
}

/// The pool after the given waits resolved one after another.
pub open spec fn pool_after_run(pool: PoolView, resolutions: Seq<ResolutionView>) -> PoolView
    decreases resolutions.len(),
{
    if resolutions.len() == 0 {
        pool
    } else {
        pool_after_run(pool_after_poll(pool, Some(resolutions[0])), resolutions.drop_first())
    }
}

/// How many of the resolutions carry a confirmation.
pub open spec fn confirmed_count(resolutions: Seq<ResolutionView>) -> nat
    decreases resolutions.len(),
{
    if resolutions.len() == 0 {
        0
    } else if resolutions[0].outcome is Some {
        1 + confirmed_count(resolutions.drop_first())
    } else {
        confirmed_count(resolutions.drop_first())
    }
}

/// Each of the resolutions is of another wait, each of these waits is
/// pending, and a confirmation is of the quote that its wait was for.
pub open spec fn resolves_pending_once(pool: PoolView, resolutions: Seq<ResolutionView>) -> bool {
    &&& forall|i: int|
        0 <= i < resolutions.len() ==> pool.waits.dom().contains(#[trigger] resolutions[i].ticket)
    &&& forall|i: int, j: int|
        0 <= i < j < resolutions.len() ==> (#[trigger] resolutions[i]).ticket
            != (#[trigger] resolutions[j]).ticket
    &&& forall|i: int|
        0 <= i < resolutions.len() ==> ((#[trigger] resolutions[i]).outcome matches Some(confirmed)
            ==> confirmed.quote_id == pool.waits[resolutions[i].ticket].quote_id)
}

/// Where each of a number of pending waits resolves once, in any order, the
/// stream yields one event for each wait that resolved to a confirmation and
/// none for the others, and every one of these waits has left the pool.
pub proof fn lemma_stream_yields_each_confirmation_once(
    pool: PoolView,
    resolutions: Seq<ResolutionView>,
)
    requires
        pool.waits.dom().finite(),
        resolves_pending_once(pool, resolutions),
    ensures
        events_of_run(pool, resolutions).len() == confirmed_count(resolutions),
        pool_after_run(pool, resolutions).waits.dom().finite(),
        pool_after_run(pool, resolutions).waits.dom().len() == pool.waits.dom().len()
            - resolutions.len(),
        forall|i: int|
            0 <= i < resolutions.len() ==> !pool_after_run(pool, resolutions).waits.dom().contains(
                #[trigger] resolutions[i].ticket,
            ),
        forall|ticket: u64|
            pool_after_run(pool, resolutions).waits.dom().contains(ticket)
                ==> pool.waits.dom().contains(ticket),
    decreases resolutions.len(),
{
    if resolutions.len() > 0 {
        let first = resolutions[0];
        let rest = resolutions.drop_first();
        let next = pool_after_poll(pool, Some(first));
        assert(pool.waits.dom().contains(resolutions[0].ticket));
        assert(event_of_poll(pool, Some(first)) == resolutions[0].outcome);
        assert forall|i: int| 0 <= i < rest.len() implies next.waits.dom().contains(
            #[trigger] rest[i].ticket,
        ) by {
            assert(rest[i] == resolutions[i + 1]);
            assert(pool.waits.dom().contains(resolutions[i + 1].ticket));
            assert(resolutions[0].ticket != resolutions[i + 1].ticket);
        }
        assert forall|i: int, j: int| 0 <= i < j < rest.len() implies (#[trigger] rest[i]).ticket
            != (#[trigger] rest[j]).ticket by {
            assert(rest[i] == resolutions[i + 1]);
            assert(rest[j] == resolutions[j + 1]);
        }
        assert forall|i: int| 0 <= i < rest.len() implies ((#[trigger] rest[i]).outcome matches Some(
            confirmed,
        ) ==> confirmed.quote_id == next.waits[rest[i].ticket].quote_id) by {
            assert(rest[i] == resolutions[i + 1]);
            assert(resolutions[0].ticket != resolutions[i + 1].ticket);
        }
        lemma_stream_yields_each_confirmation_once(next, rest);
        let after = pool_after_run(pool, resolutions);
        assert(after == pool_after_run(next, rest));
        assert forall|i: int| 0 <= i < resolutions.len() implies !after.waits.dom().contains(
            #[trigger] resolutions[i].ticket,
        ) by {
            if i == 0 {
                assert(!next.waits.dom().contains(first.ticket));
            } else {
                assert(rest[i - 1] == resolutions[i]);
            }
        }
    }
}

/// Every event of a run is the confirmation of a quote that had a wait in
/// flight when the run began.
pub proof fn lemma_events_are_of_pending_quotes(pool: PoolView, resolutions: Seq<ResolutionView>)
    ensures
        forall|i: int|
            0 <= i < events_of_run(pool, resolutions).len() ==> quote_pending(
                pool,
                #[trigger] events_of_run(pool, resolutions)[i].quote_id,
            ),
    decreases resolutions.len(),
{
    if resolutions.len() > 0 {
        let first = resolutions[0];
        let next = pool_after_poll(pool, Some(first));
        let rest = events_of_run(next, resolutions.drop_first());
        let events = events_of_run(pool, resolutions);
        lemma_events_are_of_pending_quotes(next, resolutions.drop_first());
        assert forall|i: int| 0 <= i < events.len() implies quote_pending(
            pool,
            #[trigger] events[i].quote_id,
        ) by {
            let shift: int = if event_of_poll(pool, Some(first)) is Some {
                1
            } else {
                0
            };
            if shift == 1 && i == 0 {
                assert(pool.waits.dom().contains(first.ticket));
            } else {
                assert(events[i] == rest[i - shift]);
                assert(quote_pending(next, rest[i - shift].quote_id));
                let ticket = choose|ticket: u64| #[trigger]
                    next.waits.dom().contains(ticket) && next.waits[ticket].quote_id == rest[i
                        - shift].quote_id;
                assert(pool.waits.dom().contains(ticket));
            }
        }
    }
}

/// While no two waits in flight are for the same quote, no two events of a
/// run carry the same quote, whatever resolves and however often.
pub proof fn lemma_stream_yields_each_quote_once(pool: PoolView, resolutions: Seq<ResolutionView>)
    requires
        distinct_quotes(pool),
    ensures
        distinct_quotes(pool_after_run(pool, resolutions)),
        forall|i: int, j: int|
            0 <= i < j < events_of_run(pool, resolutions).len() ==> (#[trigger] events_of_run(
                pool,
                resolutions,
            )[i]).quote_id != (#[trigger] events_of_run(pool, resolutions)[j]).quote_id,
    decreases resolutions.len(),
{
    if resolutions.len() > 0 {
        let first = resolutions[0];
        let next = pool_after_poll(pool, Some(first));
        let rest = events_of_run(next, resolutions.drop_first());
        let events = events_of_run(pool, resolutions);
        assert(distinct_quotes(next)) by {
            assert forall|a: u64, b: u64|
                next.waits.dom().contains(a) && next.waits.dom().contains(b) && a
                    != b implies next.waits[a].quote_id != next.waits[b].quote_id by {
                assert(pool.waits.dom().contains(a) && pool.waits.dom().contains(b));
            }
        }
        lemma_stream_yields_each_quote_once(next, resolutions.drop_first());
        lemma_events_are_of_pending_quotes(next, resolutions.drop_first());
        assert forall|i: int, j: int| 0 <= i < j < events.len() implies (#[trigger] events[i]).quote_id
            != (#[trigger] events[j]).quote_id by {
            if event_of_poll(pool, Some(first)) is Some {
                assert(events[j] == rest[j - 1]);
                if i == 0 {
                    assert(quote_pending(next, rest[j - 1].quote_id));
                    let ticket = choose|ticket: u64| #[trigger]
                        next.waits.dom().contains(ticket) && next.waits[ticket].quote_id == rest[j
                            - 1].quote_id;
                    assert(pool.waits.dom().contains(ticket) && pool.waits.dom().contains(
                        first.ticket,
                    ));
                    assert(ticket != first.ticket);
                } else {
                    assert(events[i] == rest[i - 1]);
                }
            } else {
                assert(events[i] == rest[i]);
                assert(events[j] == rest[j]);
            }
        }
    }
}

/// Whatever resolves, and however often: the stream never yields more events
/// than there were waits in the pool.
pub proof fn lemma_stream_yields_no_more_than_pending(
    pool: PoolView,
    resolutions: Seq<ResolutionView>,
)
    requires
        pool.waits.dom().finite(),
    ensures
        pool_after_run(pool, resolutions).waits.dom().finite(),
        events_of_run(pool, resolutions).len() + pool_after_run(pool, resolutions).waits.dom().len()
            <= pool.waits.dom().len(),
    decreases resolutions.len(),
{
    if resolutions.len() > 0 {
        let next = pool_after_poll(pool, Some(resolutions[0]));
        lemma_stream_yields_no_more_than_pending(next, resolutions.drop_first());
    }
}

/// The map that a sequence of waits stands for.
pub closed spec fn waits_map(waits: Seq<PendingWait>) -> Map<u64, WaitView>
    decreases waits.len(),
{
    if waits.len() == 0 {
        Map::empty()
    } else {
        waits_map(waits.drop_last()).insert(waits.last().ticket, waits.last()@)
    }
}

spec fn distinct_tickets(waits: Seq<PendingWait>) -> bool {
    forall|i: int, j: int|
        0 <= i < j < waits.len() ==> (#[trigger] waits[i]).ticket != (#[trigger] waits[j]).ticket
}

proof fn lemma_waits_map_domain(waits: Seq<PendingWait>)
    ensures
        waits_map(waits).dom().finite(),
        forall|ticket: u64| #[trigger]
            waits_map(waits).dom().contains(ticket) <==> exists|i: int|
                0 <= i < waits.len() && (#[trigger] waits[i]).ticket == ticket,
    decreases waits.len(),
{
    if waits.len() > 0 {
        let front = waits.drop_last();
        lemma_waits_map_domain(front);
        assert forall|ticket: u64| #[trigger]
            waits_map(waits).dom().contains(ticket) <==> exists|i: int|
                0 <= i < waits.len() && (#[trigger] waits[i]).ticket == ticket by {
            if waits_map(waits).dom().contains(ticket) {
                if ticket == waits.last().ticket {
                    assert(waits[waits.len() - 1].ticket == ticket);
                } else {
                    let i = choose|i: int|
                        0 <= i < front.len() && (#[trigger] front[i]).ticket == ticket;
                    assert(waits[i].ticket == ticket);
                }
            }
            if exists|i: int| 0 <= i < waits.len() && (#[trigger] waits[i]).ticket == ticket {
                let i = choose|i: int|
                    0 <= i < waits.len() && (#[trigger] waits[i]).ticket == ticket;
                if i < waits.len() - 1 {
                    assert(front[i].ticket == ticket);
                }
            }
        }
    }
}

proof fn lemma_waits_map_value(waits: Seq<PendingWait>, i: int)
    requires
        distinct_tickets(waits),
        0 <= i < waits.len(),
    ensures
        waits_map(waits).dom().contains(waits[i].ticket),
        waits_map(waits)[waits[i].ticket] == waits[i]@,
    decreases waits.len(),
{
    let front = waits.drop_last();
    if i < waits.len() - 1 {
        assert(front[i] == waits[i]);
        assert(waits[i].ticket != waits[waits.len() - 1].ticket);
        lemma_waits_map_value(front, i);
    }
}

proof fn lemma_waits_map_len(waits: Seq<PendingWait>)
    requires
        distinct_tickets(waits),
    ensures
        waits_map(waits).dom().finite(),
        waits_map(waits).dom().len() == waits.len(),
    decreases waits.len(),
{
    lemma_waits_map_domain(waits);
    if waits.len() > 0 {
        let front = waits.drop_last();
        lemma_waits_map_len(front);
        lemma_waits_map_domain(front);
        if waits_map(front).dom().contains(waits.last().ticket) {
            let i = choose|i: int|
                0 <= i < front.len() && (#[trigger] front[i]).ticket == waits.last().ticket;
            assert(waits[i].ticket == waits[waits.len() - 1].ticket);
        }
    }
}

proof fn lemma_waits_map_remove(waits: Seq<PendingWait>, i: int)
    requires
        distinct_tickets(waits),
        0 <= i < waits.len(),
    ensures
        distinct_tickets(waits.remove(i)),
        waits_map(waits.remove(i)) == waits_map(waits).remove(waits[i].ticket),
    decreases waits.len(),
{
    let removed = waits.remove(i);
    let front = waits.drop_last();
    assert forall|a: int, b: int| 0 <= a < b < removed.len() implies (#[trigger] removed[a]).ticket
        != (#[trigger] removed[b]).ticket by {
        let a0 = if a < i {
            a
        } else {
            a + 1
        };
        let b0 = if b < i {
            b
        } else {
            b + 1
        };
        assert(removed[a] == waits[a0]);
        assert(removed[b] == waits[b0]);
    }
    if i == waits.len() - 1 {
        assert(removed == front);
        lemma_waits_map_domain(front);
        if waits_map(front).dom().contains(waits[i].ticket) {
            let k = choose|k: int|
                0 <= k < front.len() && (#[trigger] front[k]).ticket == waits[i].ticket;
            assert(waits[k].ticket == waits[i].ticket);
        }
        assert(waits_map(waits).remove(waits[i].ticket) == waits_map(front));
    } else {
        assert(front[i] == waits[i]);
        assert(removed.drop_last() == front.remove(i));
        assert(removed.last() == waits.last());
        lemma_waits_map_remove(front, i);
        assert(waits[i].ticket != waits[waits.len() - 1].ticket);
        assert(waits_map(removed) == waits_map(front).remove(waits[i].ticket).insert(
            waits.last().ticket,
            waits.last()@,
        ));
        assert(waits_map(removed) == waits_map(waits).remove(waits[i].ticket));
    }
}

spec fn distinct_quote_ids(waits: Seq<PendingWait>) -> bool {
    forall|i: int, j: int|
        0 <= i < j < waits.len() ==> (#[trigger] waits[i]).quote_id@ != (
        #[trigger] waits[j]).quote_id@
}

proof fn lemma_waits_map_distinct_quotes(waits: Seq<PendingWait>, next_ticket: nat)
    requires
        distinct_tickets(waits),
        distinct_quote_ids(waits),
    ensures
        distinct_quotes(PoolView { waits: waits_map(waits), next_ticket }),
{
    let pool = PoolView { waits: waits_map(waits), next_ticket };
    lemma_waits_map_domain(waits);
    assert forall|a: u64, b: u64|
        pool.waits.dom().contains(a) && pool.waits.dom().contains(b) && a
            != b implies pool.waits[a].quote_id != pool.waits[b].quote_id by {
        let i = choose|i: int| 0 <= i < waits.len() && (#[trigger] waits[i]).ticket == a;
        let j = choose|j: int| 0 <= j < waits.len() && (#[trigger] waits[j]).ticket == b;
        lemma_waits_map_value(waits, i);
        lemma_waits_map_value(waits, j);
        if i < j {
            assert(waits[i].quote_id@ != waits[j].quote_id@);
        } else {
            assert(waits[j].quote_id@ != waits[i].quote_id@);
        }
    }
}

proof fn lemma_waits_map_quote_pending(waits: Seq<PendingWait>, next_ticket: nat, quote_id: Seq<char>)
    requires
        distinct_tickets(waits),
    ensures
        quote_pending(PoolView { waits: waits_map(waits), next_ticket }, quote_id) <==> exists|
            i: int,
        |
            0 <= i < waits.len() && (#[trigger] waits[i]).quote_id@ == quote_id,
{
    let pool = PoolView { waits: waits_map(waits), next_ticket };
    lemma_waits_map_domain(waits);
    if quote_pending(pool, quote_id) {
        let ticket = choose|ticket: u64| #[trigger]
            pool.waits.dom().contains(ticket) && pool.waits[ticket].quote_id == quote_id;
        let i = choose|i: int| 0 <= i < waits.len() && (#[trigger] waits[i]).ticket == ticket;
        lemma_waits_map_value(waits, i);
        assert(waits[i].quote_id@ == quote_id);
    }
    if exists|i: int| 0 <= i < waits.len() && (#[trigger] waits[i]).quote_id@ == quote_id {
        let i = choose|i: int| 0 <= i < waits.len() && (#[trigger] waits[i]).quote_id@ == quote_id;
        lemma_waits_map_value(waits, i);
        assert(pool.waits.dom().contains(waits[i].ticket));
    }
}

/// The set of waits in flight.
pub struct PendingWaitPool {
    waits: Vec<PendingWait>,
    next_ticket: u64,
}

impl View for PendingWaitPool {
    type V = PoolView;

    closed spec fn view(&self) -> PoolView {
        PoolView { waits: waits_map(self.waits@), next_ticket: self.next_ticket as nat }
    }
}

impl PendingWaitPool {
    #[verifier::type_invariant]
    spec fn well_formed(self) -> bool {
        &&& distinct_tickets(self.waits@)
        &&& distinct_quote_ids(self.waits@)
        &&& forall|i: int|
            0 <= i < self.waits.len() ==> (#[trigger] self.waits[i]).ticket < self.next_ticket
    }

    /// A pool with no wait in it.
    pub fn new() -> (pool: Self)
        ensures
            pool@.waits == Map::<u64, WaitView>::empty(),
            pool@.next_ticket == 0,
            distinct_quotes(pool@),
    {
        PendingWaitPool { waits: Vec::new(), next_ticket: 0 }
    }

    /// The pool holds finitely many waits.
    pub proof fn lemma_pool_is_finite(&self)
        ensures
            self@.waits.dom().finite(),
    {
        lemma_waits_map_domain(self.waits@);
    }

    /// The number of waits in flight.
    pub fn len(&self) -> (count: usize)
        ensures
            self@.waits.dom().finite(),
            count == self@.waits.dom().len(),
    {
        proof {
            use_type_invariant(self);
            lemma_waits_map_len(self.waits@);
        }
        self.waits.len()
    }

    /// Whether no wait is in flight.
    pub fn is_empty(&self) -> (empty: bool)
        ensures
            empty == (self@.waits.dom() =~= Set::<u64>::empty()),
    {
        proof {
            use_type_invariant(self);
            lemma_waits_map_len(self.waits@);
            if self.waits@.len() > 0 {
                lemma_waits_map_value(self.waits@, 0);
            }
        }
        self.waits.len() == 0
    }

    /// How long the wait with this ticket is to last, in seconds, if it is
    /// still in flight.
    pub fn timeout_secs(&self, ticket: u64) -> (timeout: Option<u64>)
        ensures
            timeout == (if self@.waits.dom().contains(ticket) {
                Some(self@.waits[ticket].timeout_secs)
            } else {
                None
            }),
    {
        match self.position(ticket) {
            Some(i) => {
                proof {
                    use_type_invariant(self);
                    lemma_waits_map_value(self.waits@, i as int);
                }
                Some(self.waits[i].timeout_secs)
            },
            None => None,
        }
    }

    /// Whether the wait with this ticket is still in flight.
    pub fn is_pending(&self, ticket: u64) -> (pending: bool)
        ensures
            pending == self@.waits.dom().contains(ticket),
    {
        self.position(ticket).is_some()
    }

    fn position(&self, ticket: u64) -> (found: Option<usize>)
        ensures
            match found {
                Some(i) => i < self.waits.len() && self.waits[i as int].ticket == ticket,
                None => !waits_map(self.waits@).dom().contains(ticket),
            },
            found is Some == waits_map(self.waits@).dom().contains(ticket),
    {
        let mut i: usize = 0;
        while i < self.waits.len()
            invariant
                i <= self.waits.len(),
                forall|j: int| 0 <= j < i ==> (#[trigger] self.waits[j]).ticket != ticket,
            decreases self.waits.len() - i,
        {
            if self.waits[i].ticket == ticket {
                proof {
                    lemma_waits_map_domain(self.waits@);
                }
                return Some(i);
            }
            i = i + 1;
        }
        proof {
            lemma_waits_map_domain(self.waits@);
        }
        None
    }

    /// Whether a wait for the quote is in flight.
    pub fn is_quote_pending(&self, quote_id: &String) -> (pending: bool)
        ensures
            pending == quote_pending(self@, quote_id@),
            distinct_quotes(self@),
    {
        proof {
            use_type_invariant(self);
            lemma_waits_map_distinct_quotes(self.waits@, self.next_ticket as nat);
        }
        self.position_of_quote(quote_id).is_some()
    }

    fn position_of_quote(&self, quote_id: &String) -> (found: Option<usize>)
        ensures
            match found {
                Some(i) => i < self.waits.len() && self.waits[i as int].quote_id@ == quote_id@,
                None => forall|j: int|
                    0 <= j < self.waits.len() ==> (#[trigger] self.waits[j]).quote_id@
                        != quote_id@,
            },
            found is Some == quote_pending(self@, quote_id@),
    {
        proof {
            use_type_invariant(self);
            lemma_waits_map_quote_pending(self.waits@, self.next_ticket as nat, quote_id@);
        }
        let mut i: usize = 0;
        while i < self.waits.len()
            invariant
                i <= self.waits.len(),
                forall|j: int| 0 <= j < i ==> (#[trigger] self.waits[j]).quote_id@ != quote_id@,
                quote_pending(self@, quote_id@) <==> exists|k: int|
                    0 <= k < self.waits.len() && (#[trigger] self.waits[k]).quote_id@ == quote_id@,
            decreases self.waits.len() - i,
        {
            if self.waits[i].quote_id == *quote_id {
                assert(self.waits[i as int].quote_id@ == quote_id@);
                return Some(i);
            }
            i = i + 1;
        }
        None
    }

    /// Asks for a wait for `quote_id`. A quote that has a wait in flight gets
    /// no second one, and none is added once every ticket has been handed
    /// out; otherwise the wait joins the pool under the next ticket.
    pub fn register(&mut self, quote_id: String, started_at: u64, timeout_secs: u64) -> (outcome:
        Registration)
        ensures
            outcome == registration(old(self)@, quote_id@),
            final(self)@ == pool_after_register(old(self)@, quote_id@, started_at, timeout_secs),
            distinct_quotes(final(self)@),
    {
        proof {
            use_type_invariant(&*self);
            lemma_waits_map_distinct_quotes(self.waits@, self.next_ticket as nat);
        }
        if self.position_of_quote(&quote_id).is_some() {
            return Registration::AlreadyPending;
        }
        if self.next_ticket == u64::MAX {
            return Registration::Exhausted;
        }
        let ticket: u64 = self.next_ticket;
        let ghost before = self.waits@;
        let mut waits: Vec<PendingWait> = Vec::new();
        core::mem::swap(&mut self.waits, &mut waits);
        waits.push(PendingWait { ticket, quote_id, started_at, timeout_secs });
        self.next_ticket = ticket + 1;
        proof {
            assert(waits@.drop_last() == before);
            assert forall|i: int, j: int| 0 <= i < j < waits.len() implies (
            #[trigger] waits[i]).quote_id@ != (#[trigger] waits[j]).quote_id@ by {
                assert(waits[i] == before[i]);
                if j < before.len() {
                    assert(waits[j] == before[j]);
                }
            }
            assert forall|i: int, j: int| 0 <= i < j < waits.len() implies (#[trigger] waits[i]).ticket
                != (#[trigger] waits[j]).ticket by {
                assert(waits[i] == before[i]);
                if j < before.len() {
                    assert(waits[j] == before[j]);
                }
            }
            lemma_waits_map_distinct_quotes(waits@, self.next_ticket as nat);
        }
        core::mem::swap(&mut self.waits, &mut waits);
        Registration::Registered(ticket)
    }

    /// One pull of the merged stream. `resolved` is a wait that has resolved,
    /// or `None` where none has. The wait leaves the pool; its confirmation is
    /// emitted if the wait was still pending and the confirmation is of the
    /// quote that the wait was for.
    pub fn poll(&mut self, resolved: Option<Resolution>) -> (action: PollAction)
        ensures
            final(self)@ == pool_after_poll(old(self)@, resolved_view(resolved)),
            action@ == action_of_poll(old(self)@, resolved_view(resolved)),
            distinct_quotes(final(self)@),
    {
        proof {
            use_type_invariant(&*self);
            lemma_waits_map_distinct_quotes(self.waits@, self.next_ticket as nat);
        }
        match resolved {
            None => PollAction::Backoff { millis: IDLE_BACKOFF_MILLIS },
            Some(resolution) => {
                match self.position(resolution.ticket) {
                    None => {
                        proof {
                            assert(self@.waits.remove(resolution.ticket) =~= self@.waits);
                        }
                        PollAction::Skip
                    },
                    Some(i) => {
                        proof {
                            lemma_waits_map_remove(self.waits@, i as int);
                            lemma_waits_map_value(self.waits@, i as int);
                        }
                        let ghost before = self.waits@;
                        let mut waits: Vec<PendingWait> = Vec::new();
                        core::mem::swap(&mut self.waits, &mut waits);
                        let wait = waits.remove(i);
                        proof {
                            assert forall|k: int| 0 <= k < waits.len() implies (
                            #[trigger] waits[k]).ticket < self.next_ticket by {
                                let k0 = if k < i {
                                    k
                                } else {
                                    k + 1
                                };
                                assert(waits[k] == before[k0]);
                            }
                            assert forall|a: int, b: int| 0 <= a < b < waits.len() implies (
                            #[trigger] waits[a]).quote_id@ != (#[trigger] waits[b]).quote_id@ by {
                                let a0 = if a < i {
                                    a
                                } else {
                                    a + 1
                                };
                                let b0 = if b < i {
                                    b
                                } else {
                                    b + 1
                                };
                                assert(waits[a] == before[a0]);
                                assert(waits[b] == before[b0]);
                            }
                            lemma_waits_map_distinct_quotes(waits@, self.next_ticket as nat);
                        }
                        core::mem::swap(&mut self.waits, &mut waits);
                        match resolution.outcome {
                            Some(confirmed) => {
                                if confirmed.quote_id == wait.quote_id {
                                    PollAction::Emit(
                                        PaymentEvent::PaymentReceived {
                                            quote_id: confirmed.quote_id,
                                            settlement_amount: confirmed.settlement_amount,
                                        },
                                    )
                                } else {
                                    PollAction::Skip
                                }
                            },
                            None => PollAction::Skip,
                        }
                    },
                }
            },
        }
    }
}

} // verus!
