//! Channel construction and runtime channel outcomes.
//!
//! The registry wraps tokio's bounded `mpsc` queue for point-to-point
//! channels and its bounded `broadcast` ring buffer for broadcast
//! channels. Every call into tokio stands behind a trusted wrapper here;
//! the wrappers surface runtime conditions (buffer full, channel closed,
//! lagged subscriber) as the distinguishable [`ChannelError`] values the
//! rest of the library promises, never as panics.

use vstd::prelude::*;

verus! {

/// A distinguishable runtime channel outcome that is not a received or
/// delivered message.
#[derive(Clone, Copy, PartialEq, Eq, Structural, Debug)]
pub enum ChannelError {
    /// A point-to-point receiver was requested a second time.
    ReceiverAlreadyTaken,
    /// The bounded buffer is full; the message was not queued.
    BufferFull,
    /// No live counterpart remains (every receiver, or every sender, is
    /// gone).
    Closed,
    /// No message is currently queued.
    Empty,
    /// A broadcast subscriber fell behind and missed this many messages;
    /// the next receive resumes after the gap.
    Lagged(u64),
}

/// The largest buffer a point-to-point channel may be created with;
/// `tokio::sync::mpsc::channel` refuses anything larger.
pub open spec fn mpsc_max_buffer() -> int {
    usize::MAX as int / 8
}

/// The largest capacity a broadcast channel may be created with;
/// `tokio::sync::broadcast::channel` refuses anything larger.
pub open spec fn broadcast_max_capacity() -> int {
    usize::MAX as int / 2
}

#[verifier::external_type_specification]
#[verifier::external_body]
#[verifier::reject_recursive_types(T)]
pub struct ExMpscSender<T>(tokio::sync::mpsc::Sender<T>);

#[verifier::external_type_specification]
#[verifier::external_body]
#[verifier::reject_recursive_types(T)]
pub struct ExMpscReceiver<T>(tokio::sync::mpsc::Receiver<T>);

#[verifier::external_type_specification]
#[verifier::external_body]
#[verifier::reject_recursive_types(T)]
pub struct ExBroadcastSender<T>(tokio::sync::broadcast::Sender<T>);

#[verifier::external_type_specification]
#[verifier::external_body]
#[verifier::reject_recursive_types(T)]
pub struct ExBroadcastReceiver<T>(tokio::sync::broadcast::Receiver<T>);

/// Relies on `tokio::sync::mpsc::channel`: creates a bounded queue with
/// the given buffer size; panics only on a zero or oversized buffer,
/// which the precondition excludes.
#[verifier::external_body]
pub(crate) fn mpsc_channel<T>(buffer: usize) -> (tokio::sync::mpsc::Sender<T>, tokio::sync::mpsc::Receiver<T>)
    requires
        1 <= buffer <= mpsc_max_buffer(),
{
    tokio::sync::mpsc::channel(buffer)
}

/// Relies on `tokio::sync::mpsc::Sender::clone`: a new handle sending to
/// the same queue.
#[verifier::external_body]
pub(crate) fn mpsc_sender_clone<T>(s: &tokio::sync::mpsc::Sender<T>) -> tokio::sync::mpsc::Sender<T> {
    s.clone()
}

/// Relies on `tokio::sync::mpsc::Sender::try_send`: queues the message,
/// or reports a full buffer, or reports that the receiver is gone; it
/// never blocks and never panics.
#[verifier::external_body]
pub(crate) fn mpsc_try_send<T>(s: &tokio::sync::mpsc::Sender<T>, v: T) -> (r: Result<(), ChannelError>)
    ensures
        r matches Err(e) ==> (e == ChannelError::BufferFull || e == ChannelError::Closed),
{
    match s.try_send(v) {
        Ok(()) => Ok(()),
        Err(tokio::sync::mpsc::error::TrySendError::Full(_)) => Err(ChannelError::BufferFull),
        Err(tokio::sync::mpsc::error::TrySendError::Closed(_)) => Err(ChannelError::Closed),
    }
}

/// Relies on `tokio::sync::mpsc::Receiver::try_recv`: takes the next
/// queued message, or reports an empty buffer, or reports that every
/// sender is gone; it never blocks and never panics.
#[verifier::external_body]
pub(crate) fn mpsc_try_recv<T>(rx: &mut tokio::sync::mpsc::Receiver<T>) -> (r: Result<T, ChannelError>)
    ensures
        r matches Err(e) ==> (e == ChannelError::Empty || e == ChannelError::Closed),
{
    match rx.try_recv() {
        Ok(v) => Ok(v),
        Err(tokio::sync::mpsc::error::TryRecvError::Empty) => Err(ChannelError::Empty),
        Err(tokio::sync::mpsc::error::TryRecvError::Disconnected) => Err(ChannelError::Closed),
    }
}

/// Relies on `tokio::sync::broadcast::channel`: creates a bounded ring
/// buffer with the given capacity; panics only on a zero or oversized
/// capacity, which the precondition excludes.
#[verifier::external_body]
pub(crate) fn broadcast_channel<T: Clone>(capacity: usize) -> (tokio::sync::broadcast::Sender<T>, tokio::sync::broadcast::Receiver<T>)
    requires
        1 <= capacity <= broadcast_max_capacity(),
{
    tokio::sync::broadcast::channel(capacity)
}

/// Relies on `tokio::sync::broadcast::Sender::clone`: a new handle
/// sending to the same ring buffer.
#[verifier::external_body]
pub(crate) fn broadcast_sender_clone<T>(s: &tokio::sync::broadcast::Sender<T>) -> tokio::sync::broadcast::Sender<T> {
    s.clone()
}

/// Relies on `tokio::sync::broadcast::Sender::subscribe`: a new
/// independent receiver that observes only values sent after this call.
#[verifier::external_body]
pub(crate) fn broadcast_subscribe<T>(s: &tokio::sync::broadcast::Sender<T>) -> tokio::sync::broadcast::Receiver<T> {
    s.subscribe()
}

/// Relies on `tokio::sync::broadcast::Sender::send`: enqueues the value
/// for every active subscriber and returns how many there are, or
/// reports that none remain; it never blocks and never panics.
#[verifier::external_body]
pub(crate) fn broadcast_send<T: Clone>(s: &tokio::sync::broadcast::Sender<T>, v: T) -> (r: Result<usize, ChannelError>)
    ensures
        r matches Err(e) ==> e == ChannelError::Closed,
        r matches Ok(n) ==> n >= 1,
{
    match s.send(v) {
        Ok(n) => Ok(n),
        Err(tokio::sync::broadcast::error::SendError(_)) => Err(ChannelError::Closed),
    }
}

/// Relies on `tokio::sync::broadcast::Receiver::try_recv`: takes the
/// subscriber's next value, or reports an empty buffer, a closed
/// channel, or how many values the subscriber missed; it never blocks
/// and never panics.
#[verifier::external_body]
pub(crate) fn broadcast_try_recv<T: Clone>(rx: &mut tokio::sync::broadcast::Receiver<T>) -> (r: Result<T, ChannelError>)
    ensures
        r matches Err(e) ==> (e == ChannelError::Empty || e == ChannelError::Closed
            || e matches ChannelError::Lagged(_)),
{
    match rx.try_recv() {
        Ok(v) => Ok(v),
        Err(tokio::sync::broadcast::error::TryRecvError::Empty) => Err(ChannelError::Empty),
        Err(tokio::sync::broadcast::error::TryRecvError::Closed) => Err(ChannelError::Closed),
        Err(tokio::sync::broadcast::error::TryRecvError::Lagged(n)) => Err(ChannelError::Lagged(n)),
    }
}

/// Queues one message on a point-to-point channel without blocking:
/// either the message is accepted, or the bounded buffer is full, or
/// the receiver is gone — each a distinct outcome, never a panic.
pub fn try_send_p2p<T>(tx: &tokio::sync::mpsc::Sender<T>, v: T) -> (r: Result<(), ChannelError>)
    ensures
        r matches Err(e) ==> (e == ChannelError::BufferFull || e == ChannelError::Closed),
{
    mpsc_try_send(tx, v)
}

/// Takes the next queued message of a point-to-point channel without
/// blocking: either a message, or the buffer is empty, or every sender
/// is gone — each a distinct outcome, never a panic.
pub fn try_recv_p2p<T>(rx: &mut tokio::sync::mpsc::Receiver<T>) -> (r: Result<T, ChannelError>)
    ensures
        r matches Err(e) ==> (e == ChannelError::Empty || e == ChannelError::Closed),
{
    mpsc_try_recv(rx)
}

/// Sends one value to every active broadcast subscriber: either the
/// number of subscribers reached, or none remain — never a panic.
pub fn send_broadcast<T: Clone>(tx: &tokio::sync::broadcast::Sender<T>, v: T) -> (r: Result<
    usize,
    ChannelError,
>)
    ensures
        r matches Err(e) ==> e == ChannelError::Closed,
        r matches Ok(n) ==> n >= 1,
{
    broadcast_send(tx, v)
}

/// Takes a broadcast subscriber's next value without blocking: either
/// a value, or the buffer is empty, or the channel is closed, or the
/// subscriber lagged and is told how many values it missed — each a
/// distinct outcome, never a panic or silent loss.
pub fn try_recv_broadcast<T: Clone>(rx: &mut tokio::sync::broadcast::Receiver<T>) -> (r: Result<
    T,
    ChannelError,
>)
    ensures
        r matches Err(e) ==> (e == ChannelError::Empty || e == ChannelError::Closed
            || e matches ChannelError::Lagged(_)),
{
    broadcast_try_recv(rx)
}

/// A source of channel endpoints: one call yields a connected
/// sender/receiver pair with the given buffer size.
pub trait Channel<S, R> {
    fn create_channel(buffer: usize) -> (S, R)
        requires
            1 <= buffer <= mpsc_max_buffer(),
    ;
}

/// The contract a custom point-to-point channel implementation fulfils.
pub trait MpscChannel<S, R> {
    fn create_channel(buffer: usize) -> (S, R)
        requires
            1 <= buffer <= mpsc_max_buffer(),
    ;
}

/// The contract a custom broadcast channel implementation fulfils.
pub trait MpmcChannel<S, R> {
    fn create_channel(buffer: usize) -> (S, R)
        requires
            1 <= buffer <= mpsc_max_buffer(),
    ;
}

/// Point-to-point channels backed by `tokio::sync::mpsc`.
pub struct TokioMpscChannel;

/// Broadcast channels backed by `tokio::sync::broadcast`.
pub struct TokioMpmcChannel;

impl<T: Send + Clone> Channel<tokio::sync::mpsc::Sender<T>, tokio::sync::mpsc::Receiver<T>> for TokioMpscChannel {
    fn create_channel(buffer: usize) -> (tokio::sync::mpsc::Sender<T>, tokio::sync::mpsc::Receiver<T>) {
        mpsc_channel(buffer)
    }
}

impl<T: Send + Clone> Channel<
    tokio::sync::broadcast::Sender<T>,
    tokio::sync::broadcast::Receiver<T>,
> for TokioMpmcChannel {
    fn create_channel(buffer: usize) -> (tokio::sync::broadcast::Sender<T>, tokio::sync::broadcast::Receiver<T>) {
        broadcast_channel(buffer)
    }
}

} // verus!
