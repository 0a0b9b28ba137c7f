//! A small actor library: an actor wraps a function, a `Handle` is the channel
//! through which callers hand it inputs and get outputs back.
//!
//! This crate holds the verified part: the data types, the choice of channel
//! for a handle, the registry of actor sockets, the decisions of the worker
//! loops and of the handle combinators. Running workers on threads and on the
//! tokio runtime, and awaiting replies, is done around it.
use std::marker::PhantomData;
use vstd::prelude::*;

mod channel;
pub mod actor;
pub mod compose;
pub mod handle;
pub mod registry;
pub mod worker;

verus! {

/// The channel that the sending end `tx` belongs to, as a number: the ends of one
/// channel, and the clones of an end, have the same number. Nothing else is said of
/// the number.
pub closed spec fn sender_channel<T>(tx: async_channel::Sender<T>) -> int {
    vstd::pervasive::arbitrary::<spec_fn(async_channel::Sender<T>) -> int>()(tx)
}

/// The channel that the receiving end `rx` belongs to, as a number (see
/// `sender_channel`).
pub closed spec fn receiver_channel<T>(rx: async_channel::Receiver<T>) -> int {
    vstd::pervasive::arbitrary::<spec_fn(async_channel::Receiver<T>) -> int>()(rx)
}

/// `tx` and `rx` are the two ends of one channel: what is sent on `tx` is received
/// from `rx`.
pub open spec fn linked<T>(tx: async_channel::Sender<T>, rx: async_channel::Receiver<T>) -> bool {
    sender_channel(tx) == receiver_channel(rx)
}

/// The capacity of the channel that `tx` sends on: `None` when it is unbounded.
pub closed spec fn capacity_of<T>(tx: async_channel::Sender<T>) -> Option<usize> {
    vstd::pervasive::arbitrary::<spec_fn(async_channel::Sender<T>) -> Option<usize>>()(tx)
}

/// The capacity of a channel made with depth `n`: unbounded for zero, `n` otherwise.
pub open spec fn depth_capacity(n: usize) -> Option<usize> {
    if n == 0 {
        None
    } else {
        Some(n)
    }
}

/// The identifier of the type `T`: a value that depends on `T` alone.
pub closed spec fn type_key<T: ?Sized>() -> std::any::TypeId {
    vstd::pervasive::arbitrary::<(PhantomData<T>, std::any::TypeId)>().1
}

/// Actor to wrap function
#[verifier::reject_recursive_types(I)]
#[verifier::reject_recursive_types(O)]
pub struct Actor<I, O, FN> where FN: FnMut(I) -> O {
    /// Function wrapped in actor
    pub f: FN,
    /// Marker of the input type
    pub _i: PhantomData<I>,
    /// Marker of the output type
    pub _o: PhantomData<O>,
}

impl<I, O, FN> Clone for Actor<I, O, FN> where FN: FnMut(I) -> O + Clone {
    fn clone(&self) -> (r: Self)
        ensures
            cloned(self.f, r.f),
    {
        Actor { f: self.f.clone(), _i: PhantomData, _o: PhantomData }
    }
}

impl<I, O, FN> From<FN> for Actor<I, O, FN> where FN: FnMut(I) -> O {
    fn from(f: FN) -> (r: Self) {
        Actor { f, _i: PhantomData, _o: PhantomData }
    }
}

impl<I, O, FN> vstd::std_specs::convert::FromSpecImpl<FN> for Actor<I, O, FN> where FN: FnMut(I) -> O {
    open spec fn obeys_from_spec() -> bool {
        true
    }

    open spec fn from_spec(v: FN) -> Self {
        Actor { f: v, _i: PhantomData, _o: PhantomData }
    }
}

/// Channel to communicated with `Actor` instances
#[verifier::reject_recursive_types(I)]
#[verifier::reject_recursive_types(O)]
pub struct Handle<I, O> {
    /// The depth of the channel; zero stands for an unbounded channel.
    pub n: usize,
    tx: async_channel::Sender<(I, tokio::sync::oneshot::Sender<O>)>,
    rx: async_channel::Receiver<(I, tokio::sync::oneshot::Sender<O>)>,
    cap: Option<usize>,
}

impl<I, O> Handle<I, O> {
    /// The depth the handle was made with.
    pub closed spec fn depth(&self) -> usize {
        self.n
    }

    /// The capacity the handle's channel reported when it was made: `None` when it is
    /// unbounded.
    pub closed spec fn channel_capacity(&self) -> Option<usize> {
        self.cap
    }

    /// The sending end of the handle's channel.
    pub closed spec fn sender_end(&self) -> async_channel::Sender<(I, tokio::sync::oneshot::Sender<O>)> {
        self.tx
    }

    /// The receiving end of the handle's channel.
    pub closed spec fn receiver_end(&self) -> async_channel::Receiver<(I, tokio::sync::oneshot::Sender<O>)> {
        self.rx
    }
}

impl<I, O> Clone for Handle<I, O> {
    fn clone(&self) -> (r: Self)
        ensures
            r.depth() == self.depth(),
            r.channel_capacity() == self.channel_capacity(),
            r.sender_end() == self.sender_end(),
            receiver_channel(r.receiver_end()) == receiver_channel(self.receiver_end()),
    {
        Handle {
            n: self.n,
            tx: channel::clone_sender(&self.tx),
            rx: channel::clone_receiver(&self.rx),
            cap: self.cap,
        }
    }
}

impl<I, O> Handle<I, O> where I: Send + 'static, O: Send + 'static {
    /// create a new Handle with `n` of channel depth: a channel that holds at most
    /// `n` pending inputs, or an unbounded one when `n` is zero.
    pub fn new(n: usize) -> (h: Self)
        ensures
            h.depth() == n,
            h.channel_capacity() == (if n == 0 {
                None
            } else {
                Some(n)
            }),
            linked(h.sender_end(), h.receiver_end()),
            capacity_of(h.sender_end()) == depth_capacity(n),
    {
        let c = channel::channel_with_depth(n);
        Handle { n, tx: c.tx, rx: c.rx, cap: c.capacity }
    }

    /// The depth of the handle that joins `self` and `other`: the larger of the two.
    pub fn join_depth<U, V>(&self, other: &Handle<U, V>) -> (n: usize)
        ensures
            n == if self.depth() >= other.depth() {
                self.depth()
            } else {
                other.depth()
            },
    {
        if self.n >= other.n {
            self.n
        } else {
            other.n
        }
    }

    /// The capacity of the handle's channel: `None` when it is unbounded.
    pub fn capacity(&self) -> (r: Option<usize>)
        ensures
            r == self.channel_capacity(),
    {
        self.cap
    }

    /// The sending end of the handle's channel, through which inputs reach the actors.
    pub fn sender(&self) -> (r: &async_channel::Sender<(I, tokio::sync::oneshot::Sender<O>)>)
        ensures
            *r == self.sender_end(),
    {
        &self.tx
    }

    /// The receiving end of the handle's channel, from which actors take their inputs.
    pub fn receiver(&self) -> (r: &async_channel::Receiver<(I, tokio::sync::oneshot::Sender<O>)>)
        ensures
            *r == self.receiver_end(),
    {
        &self.rx
    }
}

/// What is sent through any clone of a handle is received by the actors that
/// listen on any other clone: clones keep the sender, and the receiver's channel.
pub proof fn law_handle_clones_share_channel<I, O>(h: Handle<I, O>, c1: Handle<I, O>, c2: Handle<I, O>)
    requires
        linked(h.sender_end(), h.receiver_end()),
        c1.sender_end() == h.sender_end(),
        receiver_channel(c1.receiver_end()) == receiver_channel(h.receiver_end()),
        c2.sender_end() == h.sender_end(),
        receiver_channel(c2.receiver_end()) == receiver_channel(h.receiver_end()),
    ensures
        linked(c1.sender_end(), c2.receiver_end()),
        linked(c2.sender_end(), c1.receiver_end()),
        capacity_of(c1.sender_end()) == capacity_of(h.sender_end()),
{
}

/// A handle of depth `n` holds at most `n` pending inputs; depth zero, and only
/// depth zero, makes an unbounded channel.
pub proof fn law_depth_capacity(n: usize)
    ensures
        depth_capacity(n) is None <==> n == 0,
        depth_capacity(n) is Some ==> depth_capacity(n)->Some_0 == n,
{
}

/// A trait for inspecting input and output values.
pub trait Inspector<I, O>: Sized {
    /// Inspects the input value and returns it.
    fn inspect_i(&mut self, i: I) -> (r: I)
        default_ensures
            r == i,
            *final(self) == *old(self),
    {
        i
    }

    /// Inspects the output value and returns it.
    fn inspect_o(&mut self, o: O) -> (r: O)
        default_ensures
            r == o,
            *final(self) == *old(self),
    {
        o
    }
}

/// Handle return value is an `Option`
pub type OptionHandle<I, O> = Handle<I, Option<O>>;

/// Handle return value is a `Result`
pub type ResultHandle<I, O, E> = Handle<I, Result<O, E>>;

/// Chain error together when connecto two `ResultHandle` together: the error of
/// the first handle and the error of the second.
pub struct ChainError<E, EN>(pub E, pub EN);

} // verus!
