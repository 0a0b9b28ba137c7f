//! The examples of the library's documentation, computed link by link with the
//! actors and the decisions that the handles run.
use tokiactor::actor::{Actor, ActorFn};
use tokiactor::compose::{both, both_ok, first_err, forward_ok, forward_ok_first, forward_some, or_context, second_ok, Next};

fn option_then<O, P>(o: Option<O>, mut second: impl FnMut(O) -> Option<P>) -> Option<P> {
    match forward_some::<O, P>(o) {
        Next::Forward(x) => second(x),
        Next::Done(d) => d,
    }
}

fn option_map<O, P>(o: Option<O>, mut second: impl FnMut(O) -> P) -> Option<P> {
    match forward_some::<O, P>(o) {
        Next::Forward(x) => Some(second(x)),
        Next::Done(d) => d,
    }
}

#[test]
fn readme_adder_answers_42() {
    let mut adder = ActorFn::new(|i: i32| i + 41);
    assert_eq!(adder.handle(1), 42);
}

#[test]
fn readme_chain_of_handles() {
    let mut add = ActorFn::new(|i: i32| i + 1);
    let mut sub = ActorFn::new(|i: i32| i - 1);
    let mut div = ActorFn::new(|i: i32| match i == 0 {
        false => Some(10 / i),
        true => None,
    });
    let mut mul = ActorFn::new(|i: i32| i * 10);
    let mut pipeline = |i: i32| {
        let o = div.handle(sub.handle(add.handle(i)));
        option_map(o, |x| mul.handle(x))
    };
    assert_eq!(pipeline(0), None);
    assert_eq!(pipeline(2), Some(50));
}

#[test]
fn readme_then_and_join() {
    let mut first = ActorFn::new(|i: i32| i + 1);
    let mut second = ActorFn::new(|i: i32| i * 10);
    assert_eq!(second.handle(first.handle(1)), 20);
    assert_eq!((first.handle(2), second.handle(1)), (3, 10));
}

#[test]
fn readme_option_combinators() {
    let mut plus = ActorFn::new(|i: i32| Some(i + 1));
    let mut times = ActorFn::new(|i: i32| Some(i * 10));
    let mut times_plain = ActorFn::new(|i: i32| i * 10);
    assert_eq!(both(plus.handle(1), times.handle(1)), Some((2, 10)));
    assert_eq!(option_then(plus.handle(1), |o| times.handle(o)), Some(20));
    assert_eq!(option_map(plus.handle(1), |o| times_plain.handle(o)), Some(20));
    assert_eq!(or_context(plus.handle(1), "null error".to_string()).unwrap(), 2);
}

#[derive(Debug, PartialEq)]
struct Failure;

#[test]
fn readme_result_combinators() {
    let mut plus = ActorFn::new(|i: i32| Result::<i32, Failure>::Ok(i + 1));
    let mut same = ActorFn::new(|i: i32| Result::<i32, Failure>::Ok(i * 1));
    let mut times = ActorFn::new(|i: i32| Result::<i32, Failure>::Ok(i * 10));
    let mut times_plain = ActorFn::new(|i: i32| i * 10);
    assert!(matches!(both_ok(plus.handle(1), same.handle(1)), Ok((2, 1))));
    assert!(matches!(first_err(plus.handle(1), same.handle(1)), Ok((2, 1))));
    let chained = match forward_ok_first::<i32, i32, Failure, Failure>(plus.handle(1)) {
        Next::Forward(o) => second_ok::<i32, Failure, Failure>(times.handle(o)),
        Next::Done(d) => d,
    };
    assert!(matches!(chained, Ok(20)));
    let mapped = match forward_ok::<i32, i32, Failure>(plus.handle(1)) {
        Next::Forward(o) => Ok(times_plain.handle(o)),
        Next::Done(d) => d,
    };
    assert_eq!(mapped, Ok(20));
    assert_eq!(plus.handle(1).ok(), Some(2));
}
