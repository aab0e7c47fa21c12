//! The channels that carry a background job's result back to the caller's
//! thread: a broadcast bus for the resource and a plain channel for the error.

use vstd::prelude::*;
use std::sync::Arc;
use std::rc::Rc;
use std::sync::mpsc::{Receiver, Sender, TryRecvError};
use bus::{Bus, BusReader};

verus! {

/// `bus::Bus`, the sending side of a broadcast channel. Opaque: it is made,
/// handed on and used through the functions below.
#[verifier::external_type_specification]
#[verifier::external_body]
#[verifier::reject_recursive_types(T)]
pub struct ExBus<T>(Bus<T>);

/// `bus::BusReader`, one reading end of a broadcast channel. Opaque.
#[verifier::external_type_specification]
#[verifier::external_body]
#[verifier::reject_recursive_types(T)]
pub struct ExBusReader<T>(BusReader<T>);

/// `std::sync::mpsc::Sender`, the sending end of a plain channel. Opaque.
#[verifier::external_type_specification]
#[verifier::external_body]
#[verifier::reject_recursive_types(T)]
pub struct ExSender<T>(Sender<T>);

/// `std::sync::mpsc::Receiver`, the receiving end of a plain channel.
/// Opaque.
#[verifier::external_type_specification]
#[verifier::external_body]
#[verifier::reject_recursive_types(T)]
pub struct ExReceiver<T>(Receiver<T>);

/// What one attempt to receive without waiting found.
pub enum Received<T> {
    /// A value was waiting and has been taken out.
    Item(T),
    /// Nothing is waiting, but the sending side still exists.
    Empty,
    /// Nothing is waiting and nothing will come: the sending side is gone.
    Closed,
}

/// `bus::Bus::new`, for a bus of shared values: a bus whose ring holds `len`
/// broadcasts that not every reader has taken yet. The ring is allocated at
/// once, with one seat more than `len`, so `len` is kept small. Nothing is
/// claimed of the bus itself.
#[verifier::external_body]
pub(crate) fn bus_new<R>(len: usize) -> (bus: Bus<Arc<R>>)
    requires
        len <= u16::MAX,
{
    Bus::new(len)
}

/// `bus::Bus::add_rx`: a new reader, which sees the broadcasts made after
/// this call. Nothing is claimed of the reader or of the bus afterwards.
#[verifier::external_body]
pub(crate) fn bus_add_rx<T>(bus: &mut Bus<T>) -> (reader: BusReader<T>) {
    bus.add_rx()
}

/// `bus::Bus::try_broadcast`: offers `value` to every reader without ever
/// waiting. `Ok` means that the ring had room and the value is on the bus;
/// `Err` hands the value back. Which of the two comes back depends on what
/// the readers have taken so far, so nothing is claimed of it.
#[verifier::external_body]
pub(crate) fn bus_try_broadcast<T>(bus: &mut Bus<T>, value: T) -> (placed: Result<(), T>)
    ensures
        placed matches Err(back) ==> back == value,
{
    bus.try_broadcast(value)
}

/// `bus::BusReader::try_recv`: takes the next broadcast if one is waiting,
/// without ever blocking. Which of the three outcomes comes back depends on
/// what the sending thread has done so far, so nothing is claimed of it.
#[verifier::external_body]
pub(crate) fn bus_try_recv<T: Clone + Sync>(reader: &mut BusReader<T>) -> (found: Received<T>) {
    match reader.try_recv() {
        Ok(value) => Received::Item(value),
        Err(TryRecvError::Empty) => Received::Empty,
        Err(TryRecvError::Disconnected) => Received::Closed,
    }
}

/// `std::sync::mpsc::channel`: the two ends of a new unbounded channel.
#[verifier::external_body]
pub(crate) fn mpsc_channel<T>() -> (ends: (Sender<T>, Receiver<T>)) {
    std::sync::mpsc::channel()
}

/// `std::sync::mpsc::Sender::send`: queues `value` without blocking. `Err`
/// means that the receiving end is gone, and hands the value back. Which of
/// the two comes back depends on what the receiving thread has done, so
/// nothing is claimed of it.
#[verifier::external_body]
pub(crate) fn mpsc_send<T>(sender: &Sender<T>, value: T) -> (queued: Result<(), T>)
    ensures
        queued matches Err(back) ==> back == value,
{
    sender.send(value).map_err(|refused| refused.0)
}

/// `std::sync::mpsc::Receiver::try_recv`: takes the next queued value if there
/// is one, without ever blocking. Nothing is claimed of which outcome it is.
#[verifier::external_body]
pub(crate) fn mpsc_try_recv<T>(receiver: &Receiver<T>) -> (found: Received<T>) {
    match receiver.try_recv() {
        Ok(value) => Received::Item(value),
        Err(TryRecvError::Empty) => Received::Empty,
        Err(TryRecvError::Disconnected) => Received::Closed,
    }
}

/// `Arc::clone`: another handle to the same allocation, hence to the same
/// value.
#[verifier::external_body]
pub(crate) fn arc_clone<T>(shared: &Arc<T>) -> (other: Arc<T>)
    ensures
        other == *shared,
{
    Arc::clone(shared)
}

/// `Rc::clone`: another handle to the same allocation, hence to the same
/// value.
#[verifier::external_body]
pub(crate) fn rc_clone<T>(shared: &Rc<T>) -> (other: Rc<T>)
    ensures
        other == *shared,
{
    Rc::clone(shared)
}

} // verus!
