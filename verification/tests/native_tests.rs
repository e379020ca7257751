use std::sync::Arc;
use std::sync::atomic::AtomicUsize;
use std::sync::atomic::Ordering;
use std::task::Wake;
use std::task::Waker;

use quad_net::HttpError;
use quad_net::SharedState;
use quad_net::native::worker_outcome;

struct CountingWake {
    wakes: AtomicUsize,
}

impl Wake for CountingWake {
    fn wake(self: Arc<Self>) {
        self.wakes.fetch_add(1, Ordering::SeqCst);
    }
}

fn counting_waker() -> (Arc<CountingWake>, Waker) {
    let counter = Arc::new(CountingWake { wakes: AtomicUsize::new(0) });
    let waker = Waker::from(counter.clone());
    (counter, waker)
}

#[test]
fn delivery_then_poll_observes_the_result() {
    let (_counter, waker) = counting_waker();
    let mut cell = SharedState::new();
    let woken = cell.deliver(Ok("body".to_string()));
    assert!(woken.is_none());
    let observed = cell.poll_step(waker);
    assert!(matches!(observed, Some(Ok(text)) if text == "body"));
}

#[test]
fn pending_poll_registers_the_waker_and_delivery_hands_it_back() {
    let (counter, waker) = counting_waker();
    let mut cell = SharedState::new();
    let observed = cell.poll_step(waker);
    assert!(observed.is_none());
    let woken = cell.deliver(Ok("body".to_string()));
    let waker = woken.expect("the registered waker must be handed back");
    waker.wake();
    assert_eq!(counter.wakes.load(Ordering::SeqCst), 1);
}

#[test]
fn only_the_most_recent_waker_is_honored() {
    let (first_counter, first_waker) = counting_waker();
    let (second_counter, second_waker) = counting_waker();
    let mut cell = SharedState::new();
    assert!(cell.poll_step(first_waker).is_none());
    assert!(cell.poll_step(second_waker).is_none());
    if let Some(waker) = cell.deliver(Ok("body".to_string())) {
        waker.wake();
    }
    assert_eq!(first_counter.wakes.load(Ordering::SeqCst), 0);
    assert_eq!(second_counter.wakes.load(Ordering::SeqCst), 1);
}

#[test]
fn a_poll_after_ready_stays_pending() {
    let (_c1, waker1) = counting_waker();
    let (_c2, waker2) = counting_waker();
    let mut cell = SharedState::new();
    cell.deliver(Err(HttpError::IOError));
    let first = cell.poll_step(waker1);
    assert!(matches!(first, Some(Err(HttpError::IOError))));
    let second = cell.poll_step(waker2);
    assert!(second.is_none());
}

#[test]
fn a_second_delivery_is_refused() {
    let (_counter, waker) = counting_waker();
    let mut cell = SharedState::new();
    cell.deliver(Ok("first".to_string()));
    let woken = cell.deliver(Ok("second".to_string()));
    assert!(woken.is_none());
    let observed = cell.poll_step(waker);
    assert!(matches!(observed, Some(Ok(text)) if text == "first"));
}

#[test]
fn worker_outcome_passes_a_decoded_body_through() {
    let result = worker_outcome(Ok(Some("text".to_string())));
    assert!(matches!(result, Ok(text) if text == "text"));
}

#[test]
fn worker_outcome_classifies_an_undecodable_body_as_io_error() {
    let result = worker_outcome(Ok(None));
    assert!(matches!(result, Err(HttpError::IOError)));
}

#[test]
fn worker_outcome_classifies_a_transport_failure_with_its_detail() {
    let result = worker_outcome(Err("connection refused".to_string()));
    assert!(matches!(result, Err(HttpError::TransportError(d)) if d == "connection refused"));
}

#[test]
fn describe_names_each_error() {
    assert_eq!(HttpError::IOError.describe(), "IOError");
    let error = HttpError::TransportError("connection refused".to_string());
    assert_eq!(error.describe(), "Ureq error: connection refused");
}
