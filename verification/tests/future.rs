use cachy::{Async, Cache, Received, ResourceFuture, ResourceProvider, Signal};
use std::rc::Rc;
use std::sync::Arc;

#[derive(Debug, PartialEq)]
struct Resource(i32);

#[derive(Debug, PartialEq)]
struct TooLow(i32);

#[derive(Clone)]
struct CutoffProvider {
    cutoff: i32,
}
impl ResourceProvider<Resource> for CutoffProvider {
    type Key = i32;
    type Error = TooLow;
    fn load(&self, k: i32) -> Result<Resource, TooLow> {
        if k <= self.cutoff {
            Err(TooLow(k))
        } else {
            Ok(Resource(k))
        }
    }
}

type Handle = ResourceFuture<Resource, CutoffProvider>;

fn in_progress() -> Handle {
    let mut bus = bus::Bus::new(2);
    let succ = bus.add_rx();
    let (_tx, fail) = std::sync::mpsc::channel();
    ResourceFuture::InProgress { succ, fail }
}

#[test]
fn async_knows_its_variant() {
    let ready: Async<i32> = Async::Ready(1);
    let not_ready: Async<i32> = Async::NotReady;
    assert!(ready.is_ready());
    assert!(!ready.is_not_ready());
    assert!(not_ready.is_not_ready());
    assert!(!not_ready.is_ready());
}

#[test]
fn successful_handle_answers_the_same_every_time() {
    let value = Arc::new(Resource(7));
    let mut handle: Handle = ResourceFuture::Successful(value.clone());
    for _ in 0..5 {
        match handle.poll() {
            Ok(Async::Ready(seen)) => assert!(Arc::ptr_eq(&seen, &value)),
            _ => panic!("a successful handle stays successful"),
        }
    }
    assert!(matches!(handle, ResourceFuture::Successful(_)));
}

#[test]
fn failed_handle_answers_the_same_every_time() {
    let error = Rc::new(TooLow(-3));
    let mut handle: Handle = ResourceFuture::Failed(error.clone());
    for _ in 0..5 {
        match handle.poll() {
            Err(seen) => assert!(Rc::ptr_eq(&seen, &error)),
            Ok(_) => panic!("a failed handle stays failed"),
        }
    }
    assert!(matches!(handle, ResourceFuture::Failed(_)));
}

#[test]
fn final_handle_ignores_signals() {
    let mut handle: Handle = ResourceFuture::Successful(Arc::new(Resource(7)));
    let outcome = handle.resolve(Signal::Error(Rc::new(TooLow(0))));
    assert!(matches!(outcome, Ok(Async::Ready(r)) if *r == Resource(7)));
    let outcome = handle.resolve(Signal::Value(Arc::new(Resource(8))));
    assert!(matches!(outcome, Ok(Async::Ready(r)) if *r == Resource(7)));

    let mut handle: Handle = ResourceFuture::Failed(Rc::new(TooLow(-3)));
    let outcome = handle.resolve(Signal::Value(Arc::new(Resource(8))));
    assert!(matches!(outcome, Err(e) if *e == TooLow(-3)));
    let outcome = handle.resolve(Signal::Nothing);
    assert!(matches!(outcome, Err(e) if *e == TooLow(-3)));
}

#[test]
fn handle_in_progress_takes_a_value() {
    let mut handle = in_progress();
    let outcome = handle.resolve(Signal::Value(Arc::new(Resource(8))));
    assert!(matches!(outcome, Ok(Async::Ready(r)) if *r == Resource(8)));
    assert!(matches!(handle, ResourceFuture::Successful(ref r) if **r == Resource(8)));
}

#[test]
fn handle_in_progress_takes_an_error() {
    let mut handle = in_progress();
    let outcome = handle.resolve(Signal::Error(Rc::new(TooLow(-8))));
    assert!(matches!(outcome, Err(e) if *e == TooLow(-8)));
    assert!(matches!(handle, ResourceFuture::Failed(ref e) if **e == TooLow(-8)));
}

#[test]
fn handle_in_progress_stays_without_a_signal() {
    let mut handle = in_progress();
    let outcome = handle.resolve(Signal::Nothing);
    assert!(matches!(outcome, Ok(Async::NotReady)));
    assert!(matches!(handle, ResourceFuture::InProgress { .. }));
}

#[test]
fn poll_is_not_ready_before_the_job_has_run() {
    let mut cache = Cache::new();
    let (mut future, job) = cache.load_async(&CutoffProvider { cutoff: 0 }, 1).err().unwrap();
    for _ in 0..3 {
        assert!(matches!(future.poll(), Ok(Async::NotReady)));
    }
    assert!(matches!(future, ResourceFuture::InProgress { .. }));
    job.run();
    assert!(matches!(future.poll(), Ok(Async::Ready(r)) if *r == Resource(1)));
    assert!(matches!(future, ResourceFuture::Successful(_)));
}

#[test]
fn poll_stays_not_ready_when_the_job_is_dropped() {
    let mut cache = Cache::new();
    let (mut future, job) = cache.load_async(&CutoffProvider { cutoff: 0 }, 1).err().unwrap();
    drop(job);
    assert!(matches!(future.poll(), Ok(Async::NotReady)));
    assert!(matches!(future.poll(), Ok(Async::NotReady)));
}

#[test]
fn poll_hands_out_one_shared_error() {
    let mut cache = Cache::new();
    let (mut future, job) = cache.load_async(&CutoffProvider { cutoff: 0 }, -1).err().unwrap();
    job.run();
    let first = future.poll().err().unwrap();
    let second = future.poll().err().unwrap();
    assert_eq!(*first, TooLow(-1));
    assert!(Rc::ptr_eq(&first, &second));
}

#[test]
fn poll_looks_at_the_resource_before_the_error() {
    let mut bus = bus::Bus::new(2);
    let succ = bus.add_rx();
    let (tx, fail) = std::sync::mpsc::channel();
    bus.broadcast(Arc::new(Resource(1)));
    tx.send(TooLow(1)).unwrap();
    let mut handle: Handle = ResourceFuture::InProgress { succ, fail };
    assert!(matches!(handle.poll(), Ok(Async::Ready(r)) if *r == Resource(1)));
    // the state is final: the error that is still queued is never looked at
    assert!(matches!(handle.poll(), Ok(Async::Ready(r)) if *r == Resource(1)));
}

#[test]
fn value_attempt_gives_the_value_or_nothing() {
    let value = Arc::new(Resource(3));
    let signal: Signal<Resource, TooLow> = Signal::from_value(Received::Item(value.clone()));
    assert!(matches!(signal, Signal::Value(ref seen) if Arc::ptr_eq(seen, &value)));
    let signal: Signal<Resource, TooLow> = Signal::from_value(Received::Empty);
    assert!(matches!(signal, Signal::Nothing));
    let signal: Signal<Resource, TooLow> = Signal::from_value(Received::Closed);
    assert!(matches!(signal, Signal::Nothing));
}

#[test]
fn error_attempt_gives_the_error_or_nothing() {
    let signal: Signal<Resource, TooLow> = Signal::from_error(Received::Item(TooLow(-2)));
    assert!(matches!(signal, Signal::Error(ref seen) if **seen == TooLow(-2)));
    let signal: Signal<Resource, TooLow> = Signal::from_error(Received::Empty);
    assert!(matches!(signal, Signal::Nothing));
    let signal: Signal<Resource, TooLow> = Signal::from_error(Received::Closed);
    assert!(matches!(signal, Signal::Nothing));
}

#[test]
fn poll_finds_an_error_when_no_resource_is_there() {
    let mut bus = bus::Bus::new(2);
    let succ = bus.add_rx();
    let (tx, fail) = std::sync::mpsc::channel();
    tx.send(TooLow(-4)).unwrap();
    let mut handle: Handle = ResourceFuture::InProgress { succ, fail };
    assert!(matches!(handle.poll(), Err(e) if *e == TooLow(-4)));
    assert!(matches!(handle, ResourceFuture::Failed(_)));
}
