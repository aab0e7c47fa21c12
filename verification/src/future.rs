//! The handle to a resource that a background job is still producing.

use vstd::prelude::*;
use std::sync::Arc;
use std::rc::Rc;
use std::sync::mpsc::Receiver;
use bus::BusReader;
use crate::channel::{bus_try_recv, mpsc_try_recv, arc_clone, rc_clone, Received};
use crate::provider::ResourceProvider;

verus! {

/// Whether a value has arrived yet.
pub enum Async<T> {
    /// The value is here.
    Ready(T),
    /// The value is still being produced.
    NotReady,
}

impl<T> Async<T> {
    /// Whether this is `Ready`.
    pub fn is_ready(&self) -> (b: bool)
        ensures
            b == (*self is Ready),
    {
        match self {
            Async::Ready(_) => true,
            Async::NotReady => false,
        }
    }

    /// Whether this is `NotReady`.
    pub fn is_not_ready(&self) -> (b: bool)
        ensures
            b == (*self is NotReady),
    {
        !self.is_ready()
    }
}

/// What one look at the two channels of a job found: at most one of the
/// resource and the error.
pub enum Signal<R, E> {
    /// The job has broadcast its resource.
    Value(Arc<R>),
    /// The job has reported the provider's error.
    Error(Rc<E>),
    /// Neither channel held anything.
    Nothing,
}

impl<R, E> Signal<R, E> {
    /// What an attempt on the resource's channel amounts to: the resource, if
    /// one was taken out, and nothing otherwise, whether the channel is only
    /// empty or closed for good.
    pub fn from_value(found: Received<Arc<R>>) -> (signal: Self)
        ensures
            signal == match found {
                Received::Item(value) => Signal::<R, E>::Value(value),
                _ => Signal::<R, E>::Nothing,
            },
    {
        match found {
            Received::Item(value) => Signal::Value(value),
            _ => Signal::Nothing,
        }
    }

    /// What an attempt on the error's channel amounts to: the error, put
    /// under shared ownership, if one was taken out, and nothing otherwise.
    pub fn from_error(found: Received<E>) -> (signal: Self)
        ensures
            match found {
                Received::Item(error) => signal matches Signal::Error(shared) && *shared == error,
                _ => signal is Nothing,
            },
    {
        match found {
            Received::Item(error) => Signal::Error(Rc::new(error)),
            _ => Signal::Nothing,
        }
    }
}

/// A resource that was requested with `Cache::load_async` and may not be
/// there yet.
///
/// A handle starts `InProgress` and moves once, on the first poll that finds
/// a result, to `Successful` or to `Failed`. Both are final.
#[verifier::reject_recursive_types(R)]
#[verifier::reject_recursive_types(L)]
pub enum ResourceFuture<R, L: ResourceProvider<R>> {
    /// The job has not been seen to finish: the reading ends of its two
    /// channels.
    InProgress { succ: BusReader<Arc<R>>, fail: Receiver<L::Error> },
    /// The job produced this resource.
    Successful(Arc<R>),
    /// The provider failed with this error.
    Failed(Rc<L::Error>),
}

impl<R, L: ResourceProvider<R>> ResourceFuture<R, L> {
    /// The outcome of a poll that finds `signal`, and the state that the
    /// handle is in afterwards.
    ///
    /// A final state answers with what it holds and ignores the signal. A
    /// handle in progress takes the signal's value or error as its final
    /// state, or stays as it is when there is none.
    pub open spec fn resolved(self, signal: Signal<R, L::Error>) -> (Self, Result<
        Async<Arc<R>>,
        Rc<L::Error>,
    >) {
        match self {
            ResourceFuture::Successful(value) => (self, Ok(Async::Ready(value))),
            ResourceFuture::Failed(error) => (self, Err(error)),
            ResourceFuture::InProgress { .. } => match signal {
                Signal::Value(value) => (ResourceFuture::Successful(value), Ok(Async::Ready(value))),
                Signal::Error(error) => (ResourceFuture::Failed(error), Err(error)),
                Signal::Nothing => (self, Ok(Async::NotReady)),
            },
        }
    }

    /// The state after a run of polls, the i-th of which finds `signals[i]`.
    pub open spec fn polled(self, signals: Seq<Signal<R, L::Error>>) -> Self
        decreases signals.len(),
    {
        if signals.len() == 0 {
            self
        } else {
            self.polled(signals.drop_last()).resolved(signals.last()).0
        }
    }

    /// Whether the handle has reached one of its two final states.
    pub open spec fn is_final(self) -> bool {
        self is Successful || self is Failed
    }

    /// A handle in progress that reads from the given channel ends.
    pub(crate) fn new(s: BusReader<Arc<R>>, f: Receiver<L::Error>) -> (handle: Self)
        ensures
            handle == (ResourceFuture::<R, L>::InProgress { succ: s, fail: f }),
    {
        ResourceFuture::InProgress { succ: s, fail: f }
    }

    /// Advances the handle by one signal and answers as a poll does.
    pub fn resolve(&mut self, signal: Signal<R, L::Error>) -> (outcome: Result<
        Async<Arc<R>>,
        Rc<L::Error>,
    >)
        ensures
            (*final(self), outcome) == old(self).resolved(signal),
    {
        match self {
            ResourceFuture::Successful(value) => Ok(Async::Ready(arc_clone(value))),
            ResourceFuture::Failed(error) => Err(rc_clone(error)),
            ResourceFuture::InProgress { .. } => match signal {
                Signal::Value(value) => {
                    let kept = arc_clone(&value);
                    *self = ResourceFuture::Successful(kept);
                    Ok(Async::Ready(value))
                },
                Signal::Error(error) => {
                    let kept = rc_clone(&error);
                    *self = ResourceFuture::Failed(kept);
                    Err(error)
                },
                Signal::Nothing => Ok(Async::NotReady),
            },
        }
    }
}

impl<R: Send + Sync, L: ResourceProvider<R>> ResourceFuture<R, L> {
    /// Looks at the two channels without waiting: at the resource's first,
    /// and at the error's only if no resource was there.
    ///
    /// What the channels hold is for the job's thread to decide, so any
    /// signal may come back. What each attempt's answer amounts to is said by
    /// `Signal::from_value` and `Signal::from_error`, and what the handle
    /// makes of the signal by `resolve`.
    fn listen(succ: &mut BusReader<Arc<R>>, fail: &Receiver<L::Error>) -> (signal: Signal<
        R,
        L::Error,
    >) {
        match Signal::from_value(bus_try_recv(succ)) {
            Signal::Nothing => Signal::from_error(mpsc_try_recv(fail)),
            heard => heard,
        }
    }

    /// Asks, without waiting, whether the resource is there.
    ///
    /// A handle in a final state answers with what it holds, every time. A
    /// handle in progress looks at its channels once and moves to the final
    /// state that it finds, if any.
    pub fn poll(&mut self) -> (outcome: Result<Async<Arc<R>>, Rc<L::Error>>)
        ensures
            old(self).is_final() ==> (*final(self), outcome) == old(self).resolved(Signal::Nothing),
            old(self).is_final() ==> *final(self) == *old(self),
            match *old(self) {
                ResourceFuture::Successful(value) => outcome == Ok::<_, Rc<L::Error>>(
                    Async::Ready(value),
                ),
                ResourceFuture::Failed(error) => outcome == Err::<Async<Arc<R>>, _>(error),
                ResourceFuture::InProgress { .. } => match outcome {
                    Ok(Async::Ready(value)) => *final(self) == ResourceFuture::<R, L>::Successful(
                        value,
                    ),
                    Ok(Async::NotReady) => (*final(self)) is InProgress,
                    Err(error) => *final(self) == ResourceFuture::<R, L>::Failed(error),
                },
            },
    {
        let signal = match self {
            ResourceFuture::InProgress { succ, fail } => Self::listen(succ, fail),
            _ => Signal::Nothing,
        };
        self.resolve(signal)
    }
}

} // verus!
