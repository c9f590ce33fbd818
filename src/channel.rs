//! The channels between a logger and its worker.
//!
//! What a channel holds changes under other threads, so nothing is stated of
//! what a receive returns beyond the shapes that flume documents.
use vstd::prelude::*;
use crate::record::DataDogLog;
use crate::self_log::SelfLogEvent;

verus! {

#[verifier::external_type_specification]
#[verifier::external_body]
#[verifier::reject_recursive_types(T)]
pub struct ExSender<T>(flume::Sender<T>);

#[verifier::external_type_specification]
#[verifier::external_body]
#[verifier::reject_recursive_types(T)]
pub struct ExReceiver<T>(flume::Receiver<T>);

/// Why a non-blocking send was refused.
#[derive(Clone, Copy, Debug, PartialEq, Eq, Structural)]
pub enum EnqueueError {
    /// The channel is bounded and was at capacity.
    Full,
    /// Every receiver was dropped.
    Disconnected,
}

/// What a receive on a channel produced.
#[derive(Debug)]
pub enum Received<T> {
    /// An item, in the order it was sent.
    Item(T),
    /// The channel held nothing at the moment.
    Empty,
    /// Every sender was dropped and nothing is left.
    Closed,
}

/// The bound a record channel was made with, as `flume::Sender::capacity`
/// reports it: `Some(n)` for a channel that holds at most `n` records,
/// `None` for an unbounded one.
pub uninterp spec fn record_capacity(s: flume::Sender<DataDogLog>) -> Option<usize>;

/// Relies on `flume::bounded`: a channel that holds at most `cap` items.
#[verifier::external_body]
pub(crate) fn bounded<T>(cap: usize) -> (flume::Sender<T>, flume::Receiver<T>) {
    flume::bounded(cap)
}

/// Relies on `flume::bounded`: a record channel made with the bound `cap`.
#[verifier::external_body]
pub(crate) fn bounded_records(cap: usize) -> (r: (flume::Sender<DataDogLog>, flume::Receiver<DataDogLog>))
    ensures
        record_capacity(r.0) == Some(cap),
{
    flume::bounded(cap)
}

/// Relies on `flume::unbounded`: a record channel without a bound.
#[verifier::external_body]
pub(crate) fn unbounded_records() -> (r: (flume::Sender<DataDogLog>, flume::Receiver<DataDogLog>))
    ensures
        record_capacity(r.0) is None,
{
    flume::unbounded()
}

/// Relies on `Clone` of `flume::Sender`: a second sender on the same channel.
#[verifier::external_body]
pub(crate) fn clone_sender<T>(s: &flume::Sender<T>) -> flume::Sender<T> {
    s.clone()
}

/// Relies on `flume::Sender::try_send`: never blocks; refuses the item when
/// the channel is full or has no receiver left, and then hands it back.
#[verifier::external_body]
pub(crate) fn try_send<T>(s: &flume::Sender<T>, item: T) -> (r: Result<(), (EnqueueError, T)>)
    ensures
        r matches Err((_, back)) ==> back == item,
{
    match s.try_send(item) {
        Ok(()) => Ok(()),
        Err(flume::TrySendError::Full(back)) => Err((EnqueueError::Full, back)),
        Err(flume::TrySendError::Disconnected(back)) => Err((EnqueueError::Disconnected, back)),
    }
}

/// Relies on `flume::Receiver::try_recv`: never blocks.
#[verifier::external_body]
pub(crate) fn try_recv<T>(r: &flume::Receiver<T>) -> Received<T> {
    match r.try_recv() {
        Ok(item) => Received::Item(item),
        Err(flume::TryRecvError::Empty) => Received::Empty,
        Err(flume::TryRecvError::Disconnected) => Received::Closed,
    }
}

/// Relies on `flume::Receiver::recv`: waits for an item, or for the channel
/// to close; it never reports an empty channel.
#[verifier::external_body]
pub(crate) fn recv<T>(r: &flume::Receiver<T>) -> (res: Received<T>)
    ensures
        !(res is Empty),
{
    match r.recv() {
        Ok(item) => Received::Item(item),
        Err(flume::RecvError::Disconnected) => Received::Closed,
    }
}

/// The sending end of a diagnostics channel, with the record of every event
/// offered through it. Offering never blocks; an event that does not fit is
/// dropped by the channel.
pub struct DiagnosticsSender {
    inner: flume::Sender<SelfLogEvent>,
    offered: Ghost<Seq<SelfLogEvent>>,
}

impl DiagnosticsSender {
    /// Every event offered so far, in order.
    pub closed spec fn offered(&self) -> Seq<SelfLogEvent> {
        self.offered@
    }

    /// A sender through which nothing was offered yet.
    pub fn new(inner: flume::Sender<SelfLogEvent>) -> (r: Self)
        ensures
            r.offered() == Seq::<SelfLogEvent>::empty(),
    {
        DiagnosticsSender { inner, offered: Ghost(Seq::empty()) }
    }

    /// Relies on `flume::Sender::try_send`: offers the event without
    /// blocking; the channel drops it when full or without a receiver.
    #[verifier::external_body]
    pub fn offer(&mut self, event: SelfLogEvent)
        ensures
            final(self).offered() == old(self).offered().push(event),
    {
        let _ = self.inner.try_send(event);
    }
}

} // verus!
