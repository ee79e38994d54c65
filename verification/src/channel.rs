//! The outside types that the library carries (tokio's channel endpoints
//! and `bytes::Bytes`) and the few calls it makes on them.
use bytes::Bytes;
use tokio::sync::mpsc;
use tokio::sync::oneshot;
use vstd::prelude::*;

verus! {

#[verifier::external_type_specification]
#[verifier::external_body]
#[verifier::reject_recursive_types(T)]
pub struct ExOneshotSender<T>(oneshot::Sender<T>);

#[verifier::external_type_specification]
#[verifier::external_body]
#[verifier::reject_recursive_types(T)]
pub struct ExOneshotReceiver<T>(oneshot::Receiver<T>);

#[verifier::external_type_specification]
#[verifier::external_body]
pub struct ExOneshotRecvError(oneshot::error::RecvError);

#[verifier::external_type_specification]
#[verifier::external_body]
#[verifier::reject_recursive_types(T)]
pub struct ExMpscSender<T>(mpsc::Sender<T>);

#[verifier::external_type_specification]
#[verifier::external_body]
#[verifier::reject_recursive_types(T)]
pub struct ExMpscReceiver<T>(mpsc::Receiver<T>);

#[verifier::external_type_specification]
#[verifier::external_body]
pub struct ExBytes(Bytes);

/// The bytes that a `Bytes` buffer holds.
pub uninterp spec fn bytes_contents(b: Bytes) -> Seq<u8>;

/// `Bytes::len`: the number of bytes in the buffer.
#[verifier::external_body]
pub(crate) fn bytes_len(b: &Bytes) -> (n: usize)
    ensures
        n == bytes_contents(*b).len(),
{
    b.len()
}

/// `<[u8]>::to_vec` through `Bytes`'s deref: a copy of the bytes, in order.
#[verifier::external_body]
pub(crate) fn bytes_to_vec(b: &Bytes) -> (v: Vec<u8>)
    ensures
        v@ == bytes_contents(*b),
{
    b.to_vec()
}

/// `Bytes::from(Vec<u8>)`: a buffer holding exactly the vector's bytes.
#[verifier::external_body]
pub(crate) fn bytes_from_vec(v: Vec<u8>) -> (b: Bytes)
    ensures
        bytes_contents(b) == v@,
{
    Bytes::from(v)
}

/// `tokio::sync::oneshot::channel`: a fresh sender and its receiver.
/// Nothing is stated of the pair.
#[verifier::external_body]
pub(crate) fn oneshot_channel<T>() -> (pair: (oneshot::Sender<T>, oneshot::Receiver<T>)) {
    oneshot::channel()
}

/// `tokio::sync::oneshot::Sender::send`. Whether it succeeds depends on
/// whether the receiver is still alive; when it fails it hands back the
/// very value it was given.
#[verifier::external_body]
pub(crate) fn oneshot_send<T>(tx: oneshot::Sender<T>, value: T) -> (r: Result<(), T>)
    ensures
        r matches Err(v) ==> v == value,
{
    tx.send(value)
}

/// `tokio::sync::mpsc::channel`: a bounded channel. Tokio panics on a zero
/// capacity and on one above its semaphore's `MAX_PERMITS` (`usize::MAX >>
/// 3`, at least `0x1fff_ffff`); `requires` leaves both out. Nothing is
/// stated of the pair.
#[verifier::external_body]
pub(crate) fn mpsc_channel<T>(capacity: usize) -> (pair: (mpsc::Sender<T>, mpsc::Receiver<T>))
    requires
        0 < capacity <= 0x1fff_ffff,
{
    mpsc::channel(capacity)
}

/// `<tokio::sync::mpsc::Sender as Clone>::clone`: another handle on the
/// same channel (it copies the shared channel pointer), so the clone is
/// the same value as the original.
#[verifier::external_body]
pub(crate) fn mpsc_sender_clone<T>(tx: &mpsc::Sender<T>) -> (c: mpsc::Sender<T>)
    ensures
        c == *tx,
{
    tx.clone()
}

/// `tokio::sync::mpsc::Sender::try_send`, with its error reduced to `()`.
/// Whether it succeeds depends on the channel's free slots and on the
/// receiver, so nothing is stated of the outcome.
#[verifier::external_body]
pub(crate) fn mpsc_try_send<T>(tx: &mpsc::Sender<T>, value: T) -> (r: Result<(), ()>) {
    tx.try_send(value).map_err(|_| ())
}

/// Evidence that a value was given to a one-shot sender's `send`: the
/// sender and the value. Only `hand_over`, which makes that call, can make
/// one, so a record of this type always stands for a real send.
#[verifier::reject_recursive_types(T)]
pub struct Handoff<T> {
    record: Ghost<(oneshot::Sender<T>, T)>,
    delivered: Ghost<bool>,
}

impl<T> Handoff<T> {
    /// The sender and the value that `send` was given.
    pub closed spec fn record(&self) -> (oneshot::Sender<T>, T) {
        self.record@
    }

    /// Whether `send` reported success.
    pub closed spec fn delivered(&self) -> bool {
        self.delivered@
    }
}

/// Sends `value` on `tx`, giving back the outcome and the evidence of the
/// call. When the send fails, the value comes back unchanged.
pub(crate) fn hand_over<T>(tx: oneshot::Sender<T>, value: T) -> (r: (Result<(), T>, Handoff<T>))
    ensures
        r.0 matches Err(v) ==> v == value,
        r.1.record() == (tx, value),
        r.1.delivered() == r.0 is Ok,
{
    let ghost record = (tx, value);
    let sent = oneshot_send(tx, value);
    let ghost delivered = sent is Ok;
    (sent, Handoff { record: Ghost(record), delivered: Ghost(delivered) })
}

/// Evidence that `try_send` put a value into a bounded channel through a
/// sender. Only `queue` makes one, and only when `try_send` succeeded.
#[verifier::reject_recursive_types(T)]
pub struct Queued<T> {
    sender: Ghost<mpsc::Sender<T>>,
    value: Ghost<T>,
}

impl<T> Queued<T> {
    /// The sender through which the value was put into the channel.
    pub closed spec fn sender(&self) -> mpsc::Sender<T> {
        self.sender@
    }

    /// The value that was put into the channel.
    pub closed spec fn value(&self) -> T {
        self.value@
    }
}

/// Evidence that a sender and a receiver are the two ends of one bounded
/// channel: only `mpsc_pair`, which makes the channel, can make one.
#[verifier::reject_recursive_types(T)]
pub struct MpscPair<T> {
    ends: Ghost<(mpsc::Sender<T>, mpsc::Receiver<T>)>,
}

impl<T> MpscPair<T> {
    /// The sending end.
    pub closed spec fn sender(&self) -> mpsc::Sender<T> {
        self.ends@.0
    }

    /// The receiving end.
    pub closed spec fn receiver(&self) -> mpsc::Receiver<T> {
        self.ends@.1
    }
}

/// A fresh bounded channel, with the evidence that its two ends belong
/// together.
pub(crate) fn mpsc_pair<T>(capacity: usize) -> (r: (mpsc::Sender<T>, mpsc::Receiver<T>, MpscPair<T>))
    requires
        0 < capacity <= 0x1fff_ffff,
    ensures
        r.2.sender() == r.0,
        r.2.receiver() == r.1,
{
    let (tx, rx) = mpsc_channel(capacity);
    let ghost ends = (tx, rx);
    (tx, rx, MpscPair { ends: Ghost(ends) })
}

/// Evidence that a sender and a receiver are the two ends of one one-shot
/// channel: only `oneshot_pair`, which makes the channel, can make one.
#[verifier::reject_recursive_types(T)]
pub struct OneshotPair<T> {
    ends: Ghost<(oneshot::Sender<T>, oneshot::Receiver<T>)>,
}

impl<T> OneshotPair<T> {
    /// The sending end.
    pub closed spec fn sender(&self) -> oneshot::Sender<T> {
        self.ends@.0
    }

    /// The receiving end.
    pub closed spec fn receiver(&self) -> oneshot::Receiver<T> {
        self.ends@.1
    }
}

/// A fresh one-shot channel, with the evidence that its two ends belong
/// together.
pub(crate) fn oneshot_pair<T>() -> (r: (oneshot::Sender<T>, oneshot::Receiver<T>, OneshotPair<T>))
    ensures
        r.2.sender() == r.0,
        r.2.receiver() == r.1,
{
    let (tx, rx) = oneshot_channel();
    let ghost ends = (tx, rx);
    (tx, rx, OneshotPair { ends: Ghost(ends) })
}

/// Puts `value` into `tx`'s channel if it has room, giving the evidence of
/// it on success.
pub(crate) fn queue<T>(tx: &mpsc::Sender<T>, value: T) -> (r: Result<Queued<T>, ()>)
    ensures
        r matches Ok(q) ==> q.value() == value && q.sender() == *tx,
{
    let ghost queued = value;
    let ghost sender = *tx;
    match mpsc_try_send(tx, value) {
        Ok(()) => Ok(Queued { sender: Ghost(sender), value: Ghost(queued) }),
        Err(()) => Err(()),
    }
}

} // verus!
