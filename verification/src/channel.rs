//! A thread-safe handoff channel: an unbounded FIFO queue shared by any
//! number of cloneable handles, each of which can both send and receive.
//!
//! A handle jointly owns the queue's sending and receiving ends, so while
//! any handle is alive neither end can disappear: the terminal "other side
//! is gone" failures can never be observed through a live handle, and the
//! contracts below record that. The only failure a live handle can see is a
//! poisoned queue lock.
//!
//! The queue itself is the standard library's, reached through trusted
//! wrappers; what this module verifies is the classification of every
//! outcome those wrappers can report.

use vstd::prelude::*;
use std::sync::Arc;
use std::sync::Mutex;
use std::sync::mpsc::Sender;
use std::sync::mpsc::Receiver;
use std::sync::mpsc::TryRecvError;

verus! {

/// Why a channel operation failed.
#[derive(Debug)]
pub enum ChannelError {
    /// The queue lock was left in an inconsistent state because a holder
    /// terminated abnormally while holding it; carries a description.
    SyncError(String),
    /// A send found no receiving handle left to ever take the value.
    SendError,
    /// A receive found no sending handle left and the queue permanently
    /// empty.
    RecvError,
}

/// Everything one attempt to enqueue a value can come to.
pub enum SendOutcome {
    /// The value sits at the tail of the queue.
    Accepted,
    /// The receiving end of the queue no longer exists.
    NoReceivers,
    /// The queue lock is poisoned; carries a description.
    LockPoisoned(String),
}

/// Everything one blocking attempt to take a value can come to.
pub enum RecvOutcome<T> {
    /// The oldest pending value, removed from the queue.
    Received(T),
    /// The sending end of the queue no longer exists and no value is left.
    NoSenders,
    /// The queue lock is poisoned; carries a description.
    LockPoisoned(String),
}

/// Everything one non-blocking attempt to take a value can come to.
pub enum TryRecvOutcome<T> {
    /// The oldest pending value, removed from the queue.
    Received(T),
    /// No value is pending right now, but one may still arrive.
    Empty,
    /// The sending end of the queue no longer exists and no value is left.
    NoSenders,
    /// The queue lock is poisoned; carries a description.
    LockPoisoned(String),
}

/// What a send reports for each outcome of the enqueue attempt.
pub open spec fn send_report(o: SendOutcome) -> Result<(), ChannelError> {
    match o {
        SendOutcome::Accepted => Result::Ok(()),
        SendOutcome::NoReceivers => Result::Err(ChannelError::SendError),
        SendOutcome::LockPoisoned(m) => Result::Err(ChannelError::SyncError(m)),
    }
}

/// What a blocking receive reports for each outcome of the attempt.
pub open spec fn recv_report<T>(o: RecvOutcome<T>) -> Result<T, ChannelError> {
    match o {
        RecvOutcome::Received(d) => Result::Ok(d),
        RecvOutcome::NoSenders => Result::Err(ChannelError::RecvError),
        RecvOutcome::LockPoisoned(m) => Result::Err(ChannelError::SyncError(m)),
    }
}

/// What a non-blocking receive reports for each outcome of the attempt.
pub open spec fn try_recv_report<T>(o: TryRecvOutcome<T>) -> Result<Option<T>, ChannelError> {
    match o {
        TryRecvOutcome::Received(d) => Result::Ok(Option::Some(d)),
        TryRecvOutcome::Empty => Result::Ok(Option::None),
        TryRecvOutcome::NoSenders => Result::Err(ChannelError::RecvError),
        TryRecvOutcome::LockPoisoned(m) => Result::Err(ChannelError::SyncError(m)),
    }
}

/// Turn the outcome of an enqueue attempt into the caller's result.
pub fn classify_send(o: SendOutcome) -> (r: Result<(), ChannelError>)
    ensures
        r == send_report(o),
{
    match o {
        SendOutcome::Accepted => Ok(()),
        SendOutcome::NoReceivers => Err(ChannelError::SendError),
        SendOutcome::LockPoisoned(m) => Err(ChannelError::SyncError(m)),
    }
}

/// Turn the outcome of a blocking take into the caller's result.
pub fn classify_recv<T>(o: RecvOutcome<T>) -> (r: Result<T, ChannelError>)
    ensures
        r == recv_report(o),
{
    match o {
        RecvOutcome::Received(d) => Ok(d),
        RecvOutcome::NoSenders => Err(ChannelError::RecvError),
        RecvOutcome::LockPoisoned(m) => Err(ChannelError::SyncError(m)),
    }
}

/// Turn the outcome of a non-blocking take into the caller's result.
pub fn classify_try_recv<T>(o: TryRecvOutcome<T>) -> (r: Result<Option<T>, ChannelError>)
    ensures
        r == try_recv_report(o),
{
    match o {
        TryRecvOutcome::Received(d) => Ok(Some(d)),
        TryRecvOutcome::Empty => Ok(None),
        TryRecvOutcome::NoSenders => Err(ChannelError::RecvError),
        TryRecvOutcome::LockPoisoned(m) => Err(ChannelError::SyncError(m)),
    }
}

/// A cloneable handle on one shared FIFO queue, able both to send and to
/// receive. Cloning shares the same queue and lock; it never creates an
/// independent channel. The fields jointly own the queue's two ends, so
/// both stay alive as long as any handle does.
#[verifier::external_body]
#[verifier::reject_recursive_types(T)]
pub struct SyncChannel<T> {
    _s: Arc<Mutex<Sender<T>>>,
    _r: Arc<Mutex<Receiver<T>>>,
}

impl<T> SyncChannel<T> {
    /// Create a fresh channel with an empty queue and one handle on it.
    ///
    /// Relies on std::sync::mpsc::channel: it returns a connected
    /// sender/receiver pair over a fresh unbounded FIFO queue; the rest of
    /// the body only wraps the two ends in their shared locks.
    #[verifier::external_body]
    pub fn new() -> (r: SyncChannel<T>) {
        let (s, r) = std::sync::mpsc::channel::<T>();
        SyncChannel {
            _s: Arc::new(Mutex::new(s)),
            _r: Arc::new(Mutex::new(r)),
        }
    }

    /// Relies on std::sync::Mutex::lock and std::sync::mpsc::Sender::send.
    /// Locking fails only with a poison error; send appends the value to
    /// the tail of the queue and fails only when the receiving end has been
    /// dropped. This handle's own reference keeps the receiving end alive,
    /// so that failure cannot happen here, and the outcome is never
    /// `NoReceivers`.
    #[verifier::external_body]
    fn send_raw(&self, data: T) -> (r: SendOutcome)
        ensures
            r !is NoReceivers,
    {
        match self._s.lock() {
            Err(e) => SendOutcome::LockPoisoned(format!("Mutex poisoned: {:?}", e)),
            Ok(s) => match s.send(data) {
                Ok(()) => SendOutcome::Accepted,
                Err(_) => SendOutcome::NoReceivers,
            },
        }
    }

    /// Relies on std::sync::Mutex::lock and std::sync::mpsc::Receiver::recv.
    /// Locking fails only with a poison error; recv blocks until a value is
    /// pending, removes the oldest one, and fails only when every sending
    /// end has been dropped and the queue is empty. This handle's own
    /// reference keeps a sending end alive, so the outcome is never
    /// `NoSenders`.
    #[verifier::external_body]
    fn recv_raw(&self) -> (r: RecvOutcome<T>)
        ensures
            r !is NoSenders,
    {
        match self._r.lock() {
            Err(e) => RecvOutcome::LockPoisoned(format!("Mutex poisoned: {:?}", e)),
            Ok(rcv) => match rcv.recv() {
                Ok(d) => RecvOutcome::Received(d),
                Err(_) => RecvOutcome::NoSenders,
            },
        }
    }

    /// Relies on std::sync::Mutex::lock and
    /// std::sync::mpsc::Receiver::try_recv. Locking fails only with a
    /// poison error; try_recv never blocks: it removes and returns the
    /// oldest pending value, reports emptiness, or reports that every
    /// sending end has been dropped. This handle's own reference keeps a
    /// sending end alive, so the outcome is never `NoSenders`.
    #[verifier::external_body]
    fn try_recv_raw(&self) -> (r: TryRecvOutcome<T>)
        ensures
            r !is NoSenders,
    {
        match self._r.lock() {
            Err(e) => TryRecvOutcome::LockPoisoned(format!("Mutex poisoned: {:?}", e)),
            Ok(rcv) => match rcv.try_recv() {
                Ok(d) => TryRecvOutcome::Received(d),
                Err(TryRecvError::Empty) => TryRecvOutcome::Empty,
                Err(_) => TryRecvOutcome::NoSenders,
            },
        }
    }

    /// Append a value to the tail of the shared queue, waking at most one
    /// blocked receiver; never blocks the caller.
    ///
    /// Fails only when the queue lock is poisoned: while this handle is
    /// alive the receiving end exists, so the value can never be orphaned
    /// and `SendError` is never returned.
    pub fn send(&self, data: T) -> (r: Result<(), ChannelError>)
        ensures
            r matches Err(e) ==> e is SyncError,
    {
        classify_send(self.send_raw(data))
    }

    /// Block until a value is pending, then remove and return the oldest
    /// one.
    ///
    /// Fails only when the queue lock is poisoned: while this handle is
    /// alive a sending end exists, so the terminal `RecvError` is never
    /// returned.
    pub fn recv(&self) -> (r: Result<T, ChannelError>)
        ensures
            r matches Err(e) ==> e is SyncError,
    {
        classify_recv(self.recv_raw())
    }

    /// Remove and return the oldest pending value if one is present, or
    /// report `None` without blocking.
    ///
    /// Fails only when the queue lock is poisoned: while this handle is
    /// alive a sending end exists, so the terminal `RecvError` is never
    /// returned.
    pub fn try_recv(&self) -> (r: Result<Option<T>, ChannelError>)
        ensures
            r matches Err(e) ==> e is SyncError,
    {
        classify_try_recv(self.try_recv_raw())
    }
}

impl<T> Clone for SyncChannel<T> {
    /// Relies on std::sync::Arc::clone: the new handle shares the same
    /// queue ends and lock as this one, raising both reference counts.
    #[verifier::external_body]
    fn clone(&self) -> (r: Self) {
        SyncChannel {
            _s: Arc::clone(&self._s),
            _r: Arc::clone(&self._r),
        }
    }
}

} // verus!
