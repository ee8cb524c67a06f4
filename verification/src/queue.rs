//! The bounded queue between the spans and the consumer: its two ends, and
//! the handle through which every span is sent.

use vstd::prelude::*;
use std::sync::Arc;
use std::sync::Mutex;
use futures::channel::mpsc::{Receiver, Sender};
use crate::record::FinishedSpan;

verus! {

/// Number of finished spans the queue is opened for.
pub const QUEUE_CAPACITY: usize = 256;

/// The sending end of a bounded `futures` channel. Nothing inside it is
/// visible to the proofs.
#[verifier::external_type_specification]
#[verifier::external_body]
#[verifier::reject_recursive_types(T)]
pub struct ExSender<T>(Sender<T>);

/// The receiving end of a bounded `futures` channel. Nothing inside it is
/// visible to the proofs.
#[verifier::external_type_specification]
#[verifier::external_body]
#[verifier::reject_recursive_types(T)]
pub struct ExReceiver<T>(Receiver<T>);

/// The standard library's mutual-exclusion lock. Nothing inside it is
/// visible to the proofs.
#[verifier::external_type_specification]
#[verifier::external_body]
#[verifier::reject_recursive_types(T)]
pub struct ExMutex<T: ?Sized>(Mutex<T>);

/// `Mutex::new` wraps a value in a fresh lock. Nothing is claimed of the lock.
pub assume_specification<T>[ Mutex::<T>::new ](value: T) -> Mutex<T>;

/// Opens a bounded channel with `futures::channel::mpsc::channel`, which
/// panics unless `buffer` is below `usize::MAX >> 2`: only such a buffer
/// is admitted. Nothing is claimed of the two ends.
#[verifier::external_body]
pub(crate) fn open_channel(buffer: usize) -> (ends: (Sender<FinishedSpan>, Receiver<FinishedSpan>))
    requires
        4 * (buffer + 1) <= usize::MAX,
{
    futures::channel::mpsc::channel(buffer)
}

/// The handle through which spans are opened and, when they end, sent to
/// the consumer. It is shared by every span opened from it.
pub struct TracesIn {
    sender: Mutex<Sender<FinishedSpan>>,
}

impl TracesIn {
    /// A handle that sends through `sender`.
    pub(crate) fn new(sender: Sender<FinishedSpan>) -> TracesIn {
        TracesIn { sender: Mutex::new(sender) }
    }

    /// Offers a finished span to the queue with `Sender::try_send`, which
    /// never waits, on the sender taken with `Mutex::lock`, and says whether
    /// the queue took it; a poisoned lock counts as a refusal. Nothing is
    /// claimed of the answer: it depends on what the queue holds and on
    /// whether the consumer is still there.
    #[verifier::external_body]
    pub(crate) fn try_send(&self, record: FinishedSpan) -> (accepted: bool) {
        match self.sender.lock() {
            Ok(mut sender) => sender.try_send(record).is_ok(),
            Err(_) => false,
        }
    }

    /// Another pointer to the same handle, made with `Arc::clone`: what it
    /// points to is what `handle` points to.
    #[verifier::external_body]
    pub(crate) fn share(handle: &Arc<TracesIn>) -> (shared: Arc<TracesIn>)
        ensures
            shared == *handle,
    {
        Arc::clone(handle)
    }
}

} // verus!
