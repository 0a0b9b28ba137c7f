//! The outside items that the library relies on: the channel types of
//! `async_channel` and `tokio`, and `TypeId`, with the trusted wrappers around
//! the calls the verified code makes into them.
use vstd::prelude::*;

verus! {

#[verifier::external_type_specification]
#[verifier::external_body]
#[verifier::reject_recursive_types(T)]
pub struct ExSender<T>(async_channel::Sender<T>);

#[verifier::external_type_specification]
#[verifier::external_body]
#[verifier::reject_recursive_types(T)]
pub struct ExReceiver<T>(async_channel::Receiver<T>);

#[verifier::external_type_specification]
#[verifier::external_body]
#[verifier::reject_recursive_types(T)]
pub struct ExOneshotSender<T>(tokio::sync::oneshot::Sender<T>);

#[verifier::external_type_specification]
#[verifier::external_body]
pub struct ExTypeId(std::any::TypeId);

/// Both ends of a fresh channel, with the capacity the channel reports: `None` when
/// it is unbounded.
#[verifier::reject_recursive_types(T)]
pub struct Channel<T> {
    pub tx: async_channel::Sender<T>,
    pub rx: async_channel::Receiver<T>,
    pub capacity: Option<usize>,
}

/// Calls `async_channel::bounded`, which panics on a capacity of zero (hence the
/// `requires`), and reads the new channel's `Sender::capacity`. Claimed, as the crate
/// documents and its queue does: the sender and the receiver it returns are the two
/// ends of one channel, and the channel has, and reports, the capacity `cap`.
#[verifier::external_body]
pub(crate) fn bounded<T>(cap: usize) -> (c: Channel<T>)
    requires
        cap > 0,
    ensures
        c.capacity == Some(cap),
        crate::linked(c.tx, c.rx),
        crate::capacity_of(c.tx) == Some(cap),
{
    let (tx, rx) = async_channel::bounded(cap);
    let capacity = tx.capacity();
    Channel { tx, rx, capacity }
}

/// Calls `async_channel::unbounded` and reads the new channel's `Sender::capacity`.
/// Claimed, as the crate documents: the sender and the receiver it returns are the
/// two ends of one channel, which is unbounded and reports no capacity.
#[verifier::external_body]
pub(crate) fn unbounded<T>() -> (c: Channel<T>)
    ensures
        c.capacity is None,
        crate::linked(c.tx, c.rx),
        crate::capacity_of(c.tx) is None,
{
    let (tx, rx) = async_channel::unbounded();
    let capacity = tx.capacity();
    Channel { tx, rx, capacity }
}

/// Calls `Clone::clone` of `async_channel::Sender`, which gives another sender on the
/// same channel (the same shared channel state): claimed to be the same sender.
#[verifier::external_body]
pub(crate) fn clone_sender<T>(tx: &async_channel::Sender<T>) -> (r: async_channel::Sender<T>)
    ensures
        r == *tx,
{
    tx.clone()
}

/// Calls `Clone::clone` of `async_channel::Receiver`, which gives another receiver on
/// the same channel (it shares the receiver's channel state). The clone does not keep
/// the receiver's pending stream listener, so it is not claimed to be the same value:
/// only that it belongs to the same channel.
#[verifier::external_body]
pub(crate) fn clone_receiver<T>(rx: &async_channel::Receiver<T>) -> (r: async_channel::Receiver<T>)
    ensures
        crate::receiver_channel(r) == crate::receiver_channel(*rx),
{
    rx.clone()
}

/// Calls `std::any::TypeId::of`, which gives the identifier of the type `T`: claimed,
/// the same identifier for every call with one `T`.
#[verifier::external_body]
pub(crate) fn type_id_of<T: ?Sized + 'static>() -> (id: std::any::TypeId)
    ensures
        id == crate::type_key::<T>(),
{
    std::any::TypeId::of::<T>()
}

/// Calls `PartialEq::eq` of `TypeId`: two identifiers are equal exactly when they
/// identify the same type, so the result is claimed to be equality of the values.
#[verifier::external_body]
pub(crate) fn same_type_id(a: &std::any::TypeId, b: &std::any::TypeId) -> (r: bool)
    ensures
        r == (*a == *b),
{
    *a == *b
}

/// Picks the channel for a depth `n`: unbounded when `n` is zero, bounded by `n`
/// otherwise.
pub(crate) fn channel_with_depth<T>(n: usize) -> (c: Channel<T>)
    ensures
        c.capacity == crate::depth_capacity(n),
        crate::linked(c.tx, c.rx),
        crate::capacity_of(c.tx) == crate::depth_capacity(n),
{
    if n == 0 {
        unbounded()
    } else {
        bounded(n)
    }
}

} // verus!
