//! What the handles made by the combinators compute from the answers of the
//! handles they connect: an input goes to the first handle; from its answer the
//! combined handle either forwards a value to the second handle or answers at once.
use crate::ChainError;
use vstd::prelude::*;

verus! {

/// Where an input goes once the first handle of a chain has answered.
pub enum Next<F, D> {
    /// To the second handle, with this value.
    Forward(F),
    /// Nowhere: the chain answers this.
    Done(D),
}

/// The error of two result handles joined together.
pub enum PairError<E, EN> {
    /// Only the first handle failed.
    First(E),
    /// Only the second handle failed (or the first succeeded and the second failed).
    Second(EN),
    /// Both failed.
    Both(ChainError<E, EN>),
}

/// The answer of two joined option handles: both values, when both have one.
pub open spec fn both_spec<O, V>(o: Option<O>, v: Option<V>) -> Option<(O, V)> {
    match (o, v) {
        (Some(a), Some(b)) => Some((a, b)),
        _ => None,
    }
}

/// `OptionHandle::and`: the answer for the answers `o` and `v` of the joined handles.
pub fn both<O, V>(o: Option<O>, v: Option<V>) -> (r: Option<(O, V)>)
    ensures
        r == both_spec(o, v),
{
    match (o, v) {
        (Some(o), Some(v)) => Some((o, v)),
        _ => None,
    }
}

/// The answer of two joined result handles whose errors are chained: both values
/// when both succeeded, else the error of the one that failed, or both errors.
pub open spec fn both_ok_spec<O, V, E, EN>(o: Result<O, E>, v: Result<V, EN>) -> Result<
    (O, V),
    PairError<E, EN>,
> {
    match (o, v) {
        (Ok(a), Ok(b)) => Ok((a, b)),
        (Err(e), Err(en)) => Err(PairError::Both(ChainError(e, en))),
        (Err(e), Ok(_)) => Err(PairError::First(e)),
        (Ok(_), Err(en)) => Err(PairError::Second(en)),
    }
}

/// `ResultHandle::and` of the crate root: the answer for the answers `o` and `v`
/// of the joined handles.
pub fn both_ok<O, V, E, EN>(o: Result<O, E>, v: Result<V, EN>) -> (r: Result<(O, V), PairError<E, EN>>)
    ensures
        r == both_ok_spec(o, v),
{
    match (o, v) {
        (Ok(o), Ok(v)) => Ok((o, v)),
        (Err(e), Err(en)) => Err(PairError::Both(ChainError(e, en))),
        (Err(e), _) => Err(PairError::First(e)),
        (_, Err(en)) => Err(PairError::Second(en)),
    }
}

/// The answer of two joined result handles that stop at the first error: both
/// values when both succeeded, else the first handle's error if it failed, else
/// the second's.
pub open spec fn first_err_spec<O, V, E, EN>(o: Result<O, E>, v: Result<V, EN>) -> Result<
    (O, V),
    PairError<E, EN>,
> {
    match o {
        Err(e) => Err(PairError::First(e)),
        Ok(a) => match v {
            Err(en) => Err(PairError::Second(en)),
            Ok(b) => Ok((a, b)),
        },
    }
}

/// `ResultHandle::and` of the `handle` module: the answer for the answers `o` and
/// `v` of the joined handles, the first error winning.
pub fn first_err<O, V, E, EN>(o: Result<O, E>, v: Result<V, EN>) -> (r: Result<(O, V), PairError<E, EN>>)
    ensures
        r == first_err_spec(o, v),
{
    match o {
        Err(e) => Err(PairError::First(e)),
        Ok(o) => match v {
            Err(en) => Err(PairError::Second(en)),
            Ok(v) => Ok((o, v)),
        },
    }
}

/// `OptionHandle::and_then` and `OptionHandle::map`: a value goes on to the second
/// handle, no value is the answer of the chain.
pub fn forward_some<O, P>(o: Option<O>) -> (r: Next<O, Option<P>>)
    ensures
        r == match o {
            Some(x) => Next::<O, Option<P>>::Forward(x),
            None => Next::Done(None),
        },
{
    match o {
        Some(x) => Next::Forward(x),
        None => Next::Done(None),
    }
}

/// `ResultHandle::map`: a value goes on to the second handle, an error is the
/// answer of the chain.
pub fn forward_ok<O, P, E>(o: Result<O, E>) -> (r: Next<O, Result<P, E>>)
    ensures
        r == match o {
            Ok(x) => Next::<O, Result<P, E>>::Forward(x),
            Err(e) => Next::Done(Err(e)),
        },
{
    match o {
        Ok(x) => Next::Forward(x),
        Err(e) => Next::Done(Err(e)),
    }
}

/// `ResultHandle::and_then`, first link: a value goes on to the second handle, an
/// error of the first handle is the answer of the chain.
pub fn forward_ok_first<O, P, E, EN>(o: Result<O, E>) -> (r: Next<O, Result<P, PairError<E, EN>>>)
    ensures
        r == match o {
            Ok(x) => Next::<O, Result<P, PairError<E, EN>>>::Forward(x),
            Err(e) => Next::Done(Err(PairError::First(e))),
        },
{
    match o {
        Ok(x) => Next::Forward(x),
        Err(e) => Next::Done(Err(PairError::First(e))),
    }
}

/// `ResultHandle::and_then`, second link: the second handle's answer, its error
/// marked as the second's.
pub fn second_ok<P, E, EN>(p: Result<P, EN>) -> (r: Result<P, PairError<E, EN>>)
    ensures
        r == match p {
            Ok(x) => Ok::<P, PairError<E, EN>>(x),
            Err(en) => Err(PairError::Second(en)),
        },
{
    match p {
        Ok(x) => Ok(x),
        Err(en) => Err(PairError::Second(en)),
    }
}

/// The error of a handle whose answer held no value: the context it was given.
#[derive(Debug)]
pub struct ContextError {
    pub message: String,
}

/// `OptionHandle::ok_or` and `OptionHandle::context`: a value is kept, no value
/// becomes an error that carries `context`.
pub fn or_context<O>(o: Option<O>, context: String) -> (r: Result<O, ContextError>)
    ensures
        r == match o {
            Some(v) => Ok::<O, ContextError>(v),
            None => Err(ContextError { message: context }),
        },
{
    match o {
        Some(v) => Ok(v),
        None => Err(ContextError { message: context }),
    }
}

/// Joined option handles give a value exactly when both handles give one.
pub proof fn law_both_some_iff<O, V>(o: Option<O>, v: Option<V>)
    ensures
        both_spec(o, v) is Some <==> (o is Some && v is Some),
{
}

/// Joined result handles succeed exactly when both succeed, and the chained error
/// holds both errors exactly when both failed.
pub proof fn law_both_ok_iff<O, V, E, EN>(o: Result<O, E>, v: Result<V, EN>)
    ensures
        both_ok_spec(o, v) is Ok <==> (o is Ok && v is Ok),
        (both_ok_spec(o, v) is Err && both_ok_spec(o, v)->Err_0 is Both) <==> (o is Err && v is Err),
        first_err_spec(o, v) is Ok <==> both_ok_spec(o, v) is Ok,
{
}

} // verus!
