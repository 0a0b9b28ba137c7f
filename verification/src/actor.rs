//! Actors as a trait: a value that handles inputs one at a time, and the two
//! actors made from functions.
use std::future::Future;
use std::marker::PhantomData;
use vstd::prelude::*;

verus! {

/// A value that turns inputs into outputs, one input at a time.
pub trait Actor<I, O>: Sized where I: Send + 'static, O: Send + 'static {
    /// The actor, as it is, can take `input`.
    spec fn accepts(&self, input: I) -> bool;

    /// Handles one input.
    fn handle(&mut self, input: I) -> O
        requires
            old(self).accepts(input),
    ;
}

/// An actor that calls a function on each input.
#[verifier::reject_recursive_types(I)]
#[verifier::reject_recursive_types(O)]
pub struct ActorFn<I, O, FN> {
    f: FN,
    _i: PhantomData<I>,
    _o: PhantomData<O>,
}

impl<I, O, FN> ActorFn<I, O, FN> {
    /// The function the actor calls.
    pub closed spec fn func(&self) -> FN {
        self.f
    }
}

impl<I, O, FN> Clone for ActorFn<I, O, FN> where FN: Clone {
    fn clone(&self) -> (r: Self)
        ensures
            cloned(self.func(), r.func()),
    {
        ActorFn { f: self.f.clone(), _i: PhantomData, _o: PhantomData }
    }
}

impl<I, O, FN> Actor<I, O> for ActorFn<I, O, FN> where
    I: Send + 'static,
    O: Send + 'static,
    FN: FnMut(I) -> O + Send + 'static,
 {
    closed spec fn accepts(&self, input: I) -> bool {
        call_requires(self.func(), (input,))
    }

    fn handle(&mut self, input: I) -> (o: O)
        ensures
            call_ensures(old(self).func(), (input,), o),
    {
        (self.f)(input)
    }
}

impl<I, O, FN> ActorFn<I, O, FN> where
    I: Send + 'static,
    O: Send + 'static,
    FN: FnMut(I) -> O + Send + 'static,
 {
    /// The actor that calls `f`.
    pub fn new(f: FN) -> (a: Self)
        ensures
            a.func() == f,
    {
        ActorFn { f, _i: PhantomData, _o: PhantomData }
    }

    /// The actor takes exactly the inputs its function takes: what a caller proves
    /// to meet the `requires` of `handle`.
    pub proof fn lemma_accepts(&self, input: I)
        ensures
            self.accepts(input) == call_requires(self.func(), (input,)),
    {
    }
}

/// An actor that calls a function on each input and awaits the future it returns.
#[verifier::reject_recursive_types(I)]
#[verifier::reject_recursive_types(O)]
#[verifier::reject_recursive_types(F)]
pub struct ActorFutureFn<I, O, F, FN> where
    I: Send + 'static,
    O: Send + 'static,
    F: Future<Output = O> + Send + 'static,
    FN: Fn(I) -> F + Send + 'static + Clone,
 {
    f: FN,
    _i: PhantomData<I>,
    _o: PhantomData<O>,
}

impl<I, O, F, FN> ActorFutureFn<I, O, F, FN> where
    I: Send + 'static,
    O: Send + 'static,
    F: Future<Output = O> + Send + 'static,
    FN: Fn(I) -> F + Send + 'static + Clone,
 {
    /// The function the actor calls.
    pub closed spec fn func(&self) -> FN {
        self.f
    }

    /// The actor that calls `f`.
    pub fn new(f: FN) -> (a: Self)
        ensures
            a.func() == f,
    {
        ActorFutureFn { f, _i: PhantomData, _o: PhantomData }
    }

    /// The function the actor calls, to make the future of an input.
    pub fn function(&self) -> (f: &FN)
        ensures
            *f == self.func(),
    {
        &self.f
    }
}

impl<I, O, F, FN> Clone for ActorFutureFn<I, O, F, FN> where
    I: Send + 'static,
    O: Send + 'static,
    F: Future<Output = O> + Send + 'static,
    FN: Fn(I) -> F + Send + 'static + Clone,
 {
    fn clone(&self) -> (r: Self)
        ensures
            cloned(self.func(), r.func()),
    {
        ActorFutureFn { f: self.f.clone(), _i: PhantomData, _o: PhantomData }
    }
}

} // verus!
