//! Frame delivery channel: the queue between the engine's callbacks and the
//! consumer.
//!
//! The queue itself is a `flume` channel. Both of its ends are shared with
//! other threads, so nothing is stated here of what the queue holds; what is
//! stated is which items are handed to it, in which order, and which come
//! back undelivered.
use std::collections::VecDeque;
use vstd::prelude::*;

verus! {

/// The sending end of a `flume` channel, carried through unseen.
#[verifier::external_type_specification]
#[verifier::external_body]
#[verifier::reject_recursive_types(T)]
pub struct ExSender<T>(flume::Sender<T>);

/// The receiving end of a `flume` channel, carried through unseen.
#[verifier::external_type_specification]
#[verifier::external_body]
#[verifier::reject_recursive_types(T)]
pub struct ExReceiver<T>(flume::Receiver<T>);

/// Calls `flume::bounded`, which makes the two ends of a queue that holds at
/// most `capacity` items. Nothing is claimed of the ends. The largest
/// `usize` is left out because `flume` adds one to the capacity when it
/// receives.
#[verifier::external_body]
fn open_bounded<T>(capacity: usize) -> (ends: (flume::Sender<T>, flume::Receiver<T>))
    requires
        capacity < usize::MAX,
{
    flume::bounded(capacity)
}

/// Calls `flume::unbounded`, which makes the two ends of a queue without a
/// limit. Nothing is claimed of the ends.
#[verifier::external_body]
fn open_unbounded<T>() -> (ends: (flume::Sender<T>, flume::Receiver<T>)) {
    flume::unbounded()
}

/// Calls `flume::Sender::send`, which waits for room and fails only when
/// every receiving end is gone. The claim: an item that comes back is the
/// item that was given.
#[verifier::external_body]
fn send_on<T>(sender: &flume::Sender<T>, item: T) -> (outcome: Result<(), T>)
    ensures
        outcome matches Err(back) ==> back == item,
{
    match sender.send(item) {
        Ok(()) => Ok(()),
        Err(flume::SendError(back)) => Err(back),
    }
}

/// Calls `flume::Receiver::recv` on the receiving end of `channel`. `flume`
/// fails the call only once the last sending end of the queue was dropped.
/// The claim: while `channel` holds its sending end, an item is returned.
#[verifier::external_body]
fn recv_from<T>(channel: &Delivery<T>) -> (item: Option<T>)
    ensures channel.is_open() ==> item is Some,
{ channel.receiver.recv().ok() }

/// Calls `flume::Receiver::recv_timeout` on the receiving end of `channel`.
/// `flume` reports a disconnection only once the last sending end was
/// dropped. The claim: while `channel` holds its sending end, the only
/// failure is the timeout. `flume` panics where the clock cannot hold the
/// present instant plus the time, so the time is kept short enough.
#[verifier::external_body]
fn recv_within<T>(channel: &Delivery<T>, micros: u64) -> (item: Result<T, RecvFailure>)
    requires micros <= MAX_WAIT_MICROS,
    ensures channel.is_open() ==> !(item matches Err(RecvFailure::Disconnected)),
{
    match channel.receiver.recv_timeout(std::time::Duration::from_micros(micros)) {
        Ok(item) => Ok(item),
        Err(flume::RecvTimeoutError::Timeout) => Err(RecvFailure::Timeout),
        Err(flume::RecvTimeoutError::Disconnected) => Err(RecvFailure::Disconnected),
    }
}

/// Longest wait for an item, in microseconds: somewhat under nine years.
pub const MAX_WAIT_MICROS: u64 = 0xffff_ffff_ffff;

/// Why no item was received.
#[derive(Clone, Copy, Debug, PartialEq, Eq, Structural)]
pub enum RecvFailure {
    /// Nothing arrived in time; more may come.
    Timeout,
    /// The queue is empty and closed for good.
    Disconnected,
}

/// Both ends of one queue, as one call of `flume` made them. The sending
/// end is dropped when the stream ends and is never handed out; the
/// receiving end lives as long as this value.
#[verifier::reject_recursive_types(T)]
pub struct Delivery<T> {
    sender: Option<flume::Sender<T>>,
    receiver: flume::Receiver<T>,
}

impl<T> Delivery<T> {
    /// Whether the sending end is still there.
    pub closed spec fn is_open(&self) -> bool {
        self.sender is Some
    }

    /// The receiving end.
    pub closed spec fn receiving_end(&self) -> flume::Receiver<T> {
        self.receiver
    }

    /// A queue that holds at most `capacity` items; a sender waits while it
    /// is full. With a capacity of zero every send waits for its receiver.
    /// The largest `usize` is taken as one less, which no queue reaches
    /// either.
    pub fn bounded(capacity: usize) -> (channel: Self)
        ensures
            channel.is_open(),
    {
        let capacity: usize = if capacity == usize::MAX {
            usize::MAX - 1
        } else {
            capacity
        };
        let (sender, receiver) = open_bounded(capacity);
        Delivery { sender: Some(sender), receiver }
    }

    /// A queue without a limit; sending never waits.
    pub fn unbounded() -> (channel: Self)
        ensures
            channel.is_open(),
    {
        let (sender, receiver) = open_unbounded();
        Delivery { sender: Some(sender), receiver }
    }

    /// A queue of `buffer` items, or without a limit where none is named.
    pub fn with_buffer(buffer: Option<usize>) -> (channel: Self)
        ensures
            channel.is_open(),
    {
        match buffer {
            Some(capacity) => Self::bounded(capacity),
            None => Self::unbounded(),
        }
    }

    /// Whether the sending end is still there.
    pub fn accepts(&self) -> (open: bool)
        ensures
            open == self.is_open(),
    {
        self.sender.is_some()
    }

    /// Drops the sending end. Receivers drain what is queued and then learn
    /// that nothing more will come. Closing a closed queue changes nothing.
    pub fn close(&mut self)
        ensures
            !final(self).is_open(),
            final(self).receiving_end() == old(self).receiving_end(),
            !old(self).is_open() ==> *final(self) == *old(self),
    {
        if self.sender.is_some() {
            self.sender = None;
        }
    }

    /// Hands `item` to the queue, waiting for room. The item comes back
    /// where the queue is closed or nobody is left to receive.
    pub fn send(&self, item: T) -> (outcome: Result<(), T>)
        ensures
            outcome matches Err(back) ==> back == item,
            !self.is_open() ==> outcome is Err,
    {
        match &self.sender {
            Some(sender) => send_on(sender, item),
            None => Err(item),
        }
    }

    /// Hands the items of `batch` to the queue from the front on. Where one
    /// is refused, it and all behind it come back in their order, and none
    /// behind it was handed over.
    pub fn send_all(&self, batch: VecDeque<T>) -> (outcome: Result<(), VecDeque<T>>)
        ensures
            outcome matches Err(rest) ==> rest@.len() > 0 && rest@ == batch@.subrange(
                batch@.len() - rest@.len(),
                batch@.len() as int,
            ),
            !self.is_open() && batch@.len() > 0 ==> (outcome matches Err(rest) && rest@ == batch@),
            batch@.len() == 0 ==> outcome is Ok,
    {
        let mut rest = batch;
        let ghost mut sent: int = 0;
        while rest.len() > 0
            invariant
                0 <= sent <= batch@.len(),
                rest@ == batch@.subrange(sent, batch@.len() as int),
                !self.is_open() ==> sent == 0,
            decreases rest@.len(),
        {
            let ghost before = rest@;
            let item = match rest.pop_front() {
                Some(item) => item,
                None => {
                    return Ok(());
                },
            };
            match self.send(item) {
                Ok(()) => {
                    proof {
                        assert(rest@ =~= batch@.subrange(sent + 1, batch@.len() as int));
                        sent = sent + 1;
                    }
                },
                Err(back) => {
                    rest.push_front(back);
                    proof {
                        assert(rest@ =~= before);
                    }
                    return Err(rest);
                },
            }
        }
        Ok(())
    }

    /// Waits for the next item. `None` comes only of a closed, empty queue.
    pub fn recv(&self) -> (item: Option<T>)
        ensures self.is_open() ==> item is Some,
    { recv_from(self) }

    /// Waits for the next item, at most `micros` microseconds and never
    /// longer than `MAX_WAIT_MICROS`; an open queue is never disconnected.
    pub fn recv_timeout(&self, micros: u64) -> (item: Result<T, RecvFailure>)
        ensures self.is_open() ==> !(item matches Err(RecvFailure::Disconnected)),
    {
        let micros: u64 = if micros > MAX_WAIT_MICROS { MAX_WAIT_MICROS } else { micros };
        recv_within(self, micros)
    }

    /// Waits for the next item: no longer than `timeout_micros` where a
    /// timeout is named, else as long as it takes. Without a timeout and
    /// while the queue is open the wait ends with an item. `None` means that
    /// nothing came: the time ran out, or the queue is closed and empty.
    /// Which item comes is up to the threads that send.
    pub fn pull(&self, timeout_micros: Option<u64>) -> (item: Option<T>)
        ensures
            timeout_micros is None && self.is_open() ==> item is Some,
    {
        match timeout_micros {
            Some(micros) => match self.recv_timeout(micros) {
                Ok(item) => Some(item),
                Err(_) => None,
            },
            None => self.recv(),
        }
    }

    /// The receiving end, to clone for another consumer.
    pub fn receiver(&self) -> (receiver: &flume::Receiver<T>)
        ensures
            *receiver == self.receiving_end(),
    {
        &self.receiver
    }
}

} // verus!
