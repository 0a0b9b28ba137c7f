//! The handle of the trait-based actors: the sending end of the channel that the
//! actors of one type serve.
use crate::channel;
use vstd::prelude::*;

verus! {

/// The sending end of an actor type's channel: inputs, each paired with the
/// sender of its reply.
#[verifier::reject_recursive_types(I)]
#[verifier::reject_recursive_types(O)]
pub struct Handle<I, O> where I: Send + 'static, O: Send + 'static {
    pub handle: async_channel::Sender<(I, tokio::sync::oneshot::Sender<O>)>,
}

impl<I, O> Clone for Handle<I, O> where I: Send + 'static, O: Send + 'static {
    fn clone(&self) -> (r: Self)
        ensures
            r.handle == self.handle,
    {
        Handle { handle: channel::clone_sender(&self.handle) }
    }
}

/// Handle return value is a `Result`
pub type ResultHandle<I, O, E> = Handle<I, Result<O, E>>;

/// Handle return value is an `Option`
pub type OptionHandle<I, O> = Handle<I, Option<O>>;

} // verus!
