//! The native backend's completion handoff.
//!
//! One worker thread performs the blocking transport call; the awaiting
//! task polls. The two meet in a [`SharedState`] cell that the caller keeps
//! behind one lock: a one-slot result and the most recently registered
//! waker. The cell accepts exactly one delivery, and hands the registered
//! waker back to the deliverer so the scheduler is always notified.

use vstd::prelude::*;

verus! {

use crate::error::HttpError;
use crate::error::RequestResult;

/// Relies on core::task::Waker as an opaque notification handle: the cell
/// only stores it and hands it back; nothing is assumed of its behaviour.
#[verifier::external_type_specification]
#[verifier::external_body]
pub struct ExWaker(core::task::Waker);

/// The state shared between the worker thread and the polling task: the
/// pending result, whether the one terminal write has happened, and the
/// most recently registered waker. Both parties access it under the same
/// lock, which the caller supplies around the whole cell.
pub struct SharedState {
    slot: Option<RequestResult>,
    delivered: bool,
    waker: Option<core::task::Waker>,
}

impl SharedState {
    /// The result delivered but not yet observed by a poll, if any.
    pub closed spec fn slot_spec(&self) -> Option<RequestResult> {
        self.slot
    }

    /// Whether the one terminal write has already happened.
    pub closed spec fn delivered_spec(&self) -> bool {
        self.delivered
    }

    /// The waker the most recent Pending poll registered, if it is still
    /// waiting to be invoked.
    pub closed spec fn waker_spec(&self) -> Option<core::task::Waker> {
        self.waker
    }

    /// A cell nothing has touched: no result, no delivery, no waker.
    pub open spec fn is_fresh(&self) -> bool {
        &&& self.slot_spec() is None
        &&& !self.delivered_spec()
        &&& self.waker_spec() is None
    }

    /// A cell with nothing delivered and no waker registered, as `send`
    /// creates it.
    pub fn new() -> (cell: SharedState)
        ensures
            cell.is_fresh(),
    {
        SharedState { slot: None, delivered: false, waker: None }
    }

    /// The worker thread's terminal write. The first delivery fills the
    /// slot and hands back the registered waker, if any, for the caller to
    /// invoke; the cell itself refuses every later delivery, so one
    /// terminal result is all a request can ever produce.
    pub fn deliver(&mut self, result: RequestResult) -> (woken: Option<core::task::Waker>)
        ensures
            delivery(*old(self), result, *final(self), woken),
    {
        if self.delivered {
            None
        } else {
            self.delivered = true;
            self.slot = Some(result);
            self.waker.take()
        }
    }

    /// One poll. A waiting result is taken and returned: the terminal
    /// Ready. Otherwise the caller's waker replaces any previously stored
    /// one — only the most recent waker is honored — and the poll returns
    /// Pending.
    pub fn poll_step(&mut self, waker: core::task::Waker) -> (observed: Option<RequestResult>)
        ensures
            poll_transition(*old(self), waker, *final(self), observed),
    {
        match self.slot.take() {
            Some(result) => Some(result),
            None => {
                self.waker = Some(waker);
                None
            },
        }
    }
}

/// What one `deliver` call does to the cell: the first delivery fills the
/// slot, marks the cell delivered, and clears and returns the registered
/// waker; any later delivery changes nothing and wakes nobody.
pub open spec fn delivery(
    pre: SharedState,
    result: RequestResult,
    post: SharedState,
    woken: Option<core::task::Waker>,
) -> bool {
    if pre.delivered_spec() {
        &&& post == pre
        &&& woken is None
    } else {
        &&& post.slot_spec() == Some(result)
        &&& post.delivered_spec()
        &&& post.waker_spec() is None
        &&& woken == pre.waker_spec()
    }
}

/// What one `poll_step` call does: a waiting result is taken and observed,
/// leaving the registered waker alone; with no result waiting, the poll
/// observes nothing and the caller's waker replaces any stored one.
pub open spec fn poll_transition(
    pre: SharedState,
    waker: core::task::Waker,
    post: SharedState,
    observed: Option<RequestResult>,
) -> bool {
    match pre.slot_spec() {
        Some(result) => {
            &&& observed == Some(result)
            &&& post.slot_spec() is None
            &&& post.delivered_spec() == pre.delivered_spec()
            &&& post.waker_spec() == pre.waker_spec()
        },
        None => {
            &&& observed is None
            &&& post.slot_spec() is None
            &&& post.delivered_spec() == pre.delivered_spec()
            &&& post.waker_spec() == Some(waker)
        },
    }
}

/// Liveness at the poll boundary: once the worker has delivered its result
/// into a cell not yet delivered to, the very next poll observes Ready,
/// with exactly the delivered result.
pub proof fn lemma_poll_after_delivery_is_ready(
    pre: SharedState,
    result: RequestResult,
    mid: SharedState,
    woken: Option<core::task::Waker>,
    waker: core::task::Waker,
    post: SharedState,
    observed: Option<RequestResult>,
)
    requires
        !pre.delivered_spec(),
        delivery(pre, result, mid, woken),
        poll_transition(mid, waker, post, observed),
    ensures
        observed == Some(result),
{
}

/// Idempotent terminal: after a poll has observed Ready, a further poll
/// observes Pending — polling again never yields a second, distinct
/// terminal value.
pub proof fn lemma_no_second_terminal(
    s0: SharedState,
    w1: core::task::Waker,
    s1: SharedState,
    r1: Option<RequestResult>,
    w2: core::task::Waker,
    s2: SharedState,
    r2: Option<RequestResult>,
)
    requires
        poll_transition(s0, w1, s1, r1),
        r1 is Some,
        poll_transition(s1, w2, s2, r2),
    ensures
        r2 is None,
{
}

/// Exactly one terminal write: after the first delivery, a second delivery
/// leaves the cell unchanged and wakes nobody.
pub proof fn lemma_single_delivery(
    s0: SharedState,
    r1: RequestResult,
    s1: SharedState,
    w1: Option<core::task::Waker>,
    r2: RequestResult,
    s2: SharedState,
    w2: Option<core::task::Waker>,
)
    requires
        !s0.delivered_spec(),
        delivery(s0, r1, s1, w1),
        delivery(s1, r2, s2, w2),
    ensures
        s2 == s1,
        w2 is None,
{
}

/// The wake notification is never lost, first ordering: the poll ran
/// first, found nothing, and registered its waker; the delivery that
/// follows hands exactly that waker back to be invoked. Both steps run
/// under the cell's one lock, so this and
/// [`lemma_wake_never_lost_delivery_first`] cover every interleaving.
pub proof fn lemma_wake_never_lost_poll_first(
    start: SharedState,
    waker: core::task::Waker,
    mid: SharedState,
    observed: Option<RequestResult>,
    result: RequestResult,
    post: SharedState,
    woken: Option<core::task::Waker>,
)
    requires
        start.is_fresh(),
        poll_transition(start, waker, mid, observed),
        delivery(mid, result, post, woken),
    ensures
        observed is None,
        woken == Some(waker),
{
}

/// The wake notification is never lost, second ordering: the delivery ran
/// first, into a fresh cell with no waker yet, so it wakes nobody — and
/// needs to wake nobody, because the poll that follows observes Ready at
/// once.
pub proof fn lemma_wake_never_lost_delivery_first(
    start: SharedState,
    result: RequestResult,
    mid: SharedState,
    woken: Option<core::task::Waker>,
    waker: core::task::Waker,
    post: SharedState,
    observed: Option<RequestResult>,
)
    requires
        start.is_fresh(),
        delivery(start, result, mid, woken),
        poll_transition(mid, waker, post, observed),
    ensures
        woken is None,
        observed == Some(result),
{
}

/// One event in the life of the shared cell: a poll by the awaiting task,
/// with the waker it brings, or a delivery by the worker thread, with the
/// result it brings. The cell's lock serializes them, so a whole life of
/// the cell is one sequence of these.
pub enum CellEvent {
    Poll(core::task::Waker),
    Deliver(RequestResult),
}

/// What one event does to the cell, and the terminal result it lets the
/// task observe — a delivery lets the task observe nothing by itself.
pub open spec fn step(
    pre: SharedState,
    event: CellEvent,
    post: SharedState,
    ready: Option<RequestResult>,
) -> bool {
    match event {
        CellEvent::Poll(waker) => poll_transition(pre, waker, post, ready),
        CellEvent::Deliver(result) => {
            &&& ready is None
            &&& delivery(
                pre,
                result,
                post,
                if pre.delivered_spec() {
                    None
                } else {
                    pre.waker_spec()
                },
            )
        },
    }
}

/// A whole life of the cell: `states` holds one more entry than `events`,
/// `states[i]` the state before the `i`-th event, and `readies[i]` the
/// terminal result the `i`-th event let the task observe, if any.
pub open spec fn run(
    states: Seq<SharedState>,
    events: Seq<CellEvent>,
    readies: Seq<Option<RequestResult>>,
) -> bool {
    &&& states.len() == events.len() + 1
    &&& readies.len() == events.len()
    &&& forall|i: int|
        0 <= i < events.len() ==> #[trigger] step(states[i], events[i], states[i + 1], readies[i])
}

/// How many of the events let the task observe a terminal result.
pub open spec fn ready_count(readies: Seq<Option<RequestResult>>) -> int
    decreases readies.len(),
{
    if readies.len() == 0 {
        0
    } else {
        ready_count(readies.drop_last()) + if readies.last() is Some {
            1int
        } else {
            0int
        }
    }
}

/// 1 when a delivered result is waiting in the slot, else 0.
pub open spec fn slot_bit(state: SharedState) -> int {
    if state.slot_spec() is Some {
        1
    } else {
        0
    }
}

/// 1 once the one terminal write has happened, else 0.
pub open spec fn delivered_bit(state: SharedState) -> int {
    if state.delivered_spec() {
        1
    } else {
        0
    }
}

/// What holds of the cell at every point of a run from a fresh cell: the
/// results observed so far plus the one still waiting never exceed the one
/// delivery, and once delivered, the one result has either been observed
/// or is still waiting to be.
pub open spec fn cell_invariant(
    states: Seq<SharedState>,
    readies: Seq<Option<RequestResult>>,
    i: int,
) -> bool {
    &&& ready_count(readies.take(i)) + slot_bit(states[i]) <= delivered_bit(states[i])
    &&& states[i].delivered_spec() ==> (ready_count(readies.take(i)) == 1 || states[i].slot_spec()
        is Some)
}

proof fn lemma_count_nonneg(readies: Seq<Option<RequestResult>>)
    ensures
        ready_count(readies) >= 0,
    decreases readies.len(),
{
    if readies.len() > 0 {
        lemma_count_nonneg(readies.drop_last());
    }
}

proof fn lemma_count_take_succ(readies: Seq<Option<RequestResult>>, i: int)
    requires
        0 <= i < readies.len(),
    ensures
        ready_count(readies.take(i + 1)) == ready_count(readies.take(i)) + if readies[i]
            is Some {
            1int
        } else {
            0int
        },
{
    assert(readies.take(i + 1).drop_last() =~= readies.take(i));
    assert(readies.take(i + 1).last() == readies[i]);
}

proof fn lemma_count_monotone(readies: Seq<Option<RequestResult>>, i: int, j: int)
    requires
        0 <= i <= j <= readies.len(),
    ensures
        ready_count(readies.take(i)) <= ready_count(readies.take(j)),
    decreases j - i,
{
    if i < j {
        lemma_count_take_succ(readies, j - 1);
        lemma_count_monotone(readies, i, j - 1);
    }
}

proof fn lemma_cell_invariant(
    states: Seq<SharedState>,
    events: Seq<CellEvent>,
    readies: Seq<Option<RequestResult>>,
    i: int,
)
    requires
        run(states, events, readies),
        states[0].is_fresh(),
        0 <= i <= events.len(),
    ensures
        cell_invariant(states, readies, i),
    decreases i,
{
    if i == 0 {
        assert(readies.take(0) =~= Seq::<Option<RequestResult>>::empty());
    } else {
        lemma_cell_invariant(states, events, readies, i - 1);
        lemma_count_take_succ(readies, i - 1);
        lemma_count_nonneg(readies.take(i - 1));
        assert(step(states[i - 1], events[i - 1], states[i], readies[i - 1]));
        match events[i - 1] {
            CellEvent::Poll(waker) => {
                assert(poll_transition(states[i - 1], waker, states[i], readies[i - 1]));
                if states[i - 1].slot_spec() is Some {
                    assert(ready_count(readies.take(i)) == ready_count(readies.take(i - 1)) + 1);
                } else {
                    assert(ready_count(readies.take(i)) == ready_count(readies.take(i - 1)));
                }
            },
            CellEvent::Deliver(result) => {
                assert(ready_count(readies.take(i)) == ready_count(readies.take(i - 1)));
            },
        }
    }
}

proof fn lemma_delivered_monotone(
    states: Seq<SharedState>,
    events: Seq<CellEvent>,
    readies: Seq<Option<RequestResult>>,
    i: int,
    j: int,
)
    requires
        run(states, events, readies),
        0 <= i <= j <= events.len(),
        states[i].delivered_spec(),
    ensures
        states[j].delivered_spec(),
    decreases j - i,
{
    if i < j {
        assert(step(states[i], events[i], states[i + 1], readies[i]));
        lemma_delivered_monotone(states, events, readies, i + 1, j);
    }
}

/// Over any whole run from the fresh cell `send` creates, at most one
/// event ever lets the task observe a terminal result: polling can never
/// yield a second one.
pub proof fn lemma_ready_at_most_once(
    states: Seq<SharedState>,
    events: Seq<CellEvent>,
    readies: Seq<Option<RequestResult>>,
)
    requires
        run(states, events, readies),
        states[0].is_fresh(),
    ensures
        ready_count(readies) <= 1,
{
    lemma_cell_invariant(states, events, readies, events.len() as int);
    assert(readies.take(events.len() as int) =~= readies);
}

/// Liveness over a whole run: if the worker delivers at some point and the
/// task polls at least once afterwards, then over the whole run exactly
/// one poll observes a terminal Ready result. Repeated polling after
/// `send` thus eventually yields exactly one terminal result — never none,
/// never a second.
pub proof fn lemma_exactly_one_ready(
    states: Seq<SharedState>,
    events: Seq<CellEvent>,
    readies: Seq<Option<RequestResult>>,
    d: int,
    p: int,
)
    requires
        run(states, events, readies),
        states[0].is_fresh(),
        0 <= d < p < events.len(),
        events[d] matches CellEvent::Deliver(_),
        events[p] matches CellEvent::Poll(_),
    ensures
        ready_count(readies) == 1,
{
    lemma_ready_at_most_once(states, events, readies);
    assert(step(states[d], events[d], states[d + 1], readies[d]));
    assert(states[d + 1].delivered_spec());
    lemma_delivered_monotone(states, events, readies, d + 1, p);
    lemma_cell_invariant(states, events, readies, p);
    if states[p].slot_spec() is Some {
        assert(step(states[p], events[p], states[p + 1], readies[p]));
        assert(readies[p] is Some);
        lemma_count_take_succ(readies, p);
        lemma_cell_invariant(states, events, readies, p + 1);
        lemma_count_monotone(readies, p + 1, readies.len() as int);
        assert(readies.take(readies.len() as int) =~= readies);
    } else {
        assert(ready_count(readies.take(p)) == 1);
        lemma_count_monotone(readies, p, readies.len() as int);
        assert(readies.take(readies.len() as int) =~= readies);
    }
}

/// The worker thread's classification of its transport call, from plain
/// values: `Err(detail)` is a failed transport call, classified as
/// `TransportError` carrying the detail; `Ok(None)` a response whose body
/// could not be decoded as text, classified as `IOError`; `Ok(Some(text))`
/// a decoded body, the success.
pub fn worker_outcome(transport: Result<Option<String>, String>) -> (result: RequestResult)
    ensures
        match transport {
            Ok(Some(text)) => result == Ok::<String, HttpError>(text),
            Ok(None) => result matches Err(HttpError::IOError),
            Err(detail) => result matches Err(HttpError::TransportError(d)) && d == detail,
        },
{
    match transport {
        Ok(Some(text)) => Ok(text),
        Ok(None) => Err(HttpError::IOError),
        Err(detail) => Err(HttpError::TransportError(detail)),
    }
}

} // verus!
