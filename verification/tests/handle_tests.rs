use tokiactor::actor::{Actor as ActorTrait, ActorFn, ActorFutureFn};
use tokiactor::{Actor, ChainError, Handle, Inspector};

#[test]
fn handle_depth_zero_is_unbounded() {
    let h = Handle::<i32, i32>::new(0);
    assert_eq!(h.n, 0);
    assert_eq!(h.capacity(), None);
}

#[test]
fn handle_depth_bounds_the_channel() {
    let h = Handle::<i32, i32>::new(5);
    assert_eq!(h.n, 5);
    assert_eq!(h.capacity(), Some(5));
    let c = h.clone();
    assert_eq!(c.n, 5);
    assert!(c.sender().same_channel(h.sender()));
    assert!(c.receiver().same_channel(h.receiver()));
}

#[test]
fn handle_sender_reaches_receiver() {
    let h = Handle::<i32, i32>::new(1);
    let (tx, _rx) = tokio::sync::oneshot::channel::<i32>();
    assert!(h.sender().try_send((4, tx)).is_ok());
    let (i, _reply) = h.receiver().try_recv().unwrap();
    assert_eq!(i, 4);
}

#[test]
fn actor_from_function_calls_it() {
    let mut a: Actor<i32, i32, _> = Actor::from(|i: i32| i + 41);
    assert_eq!((a.f)(1), 42);
    let mut b = a.clone();
    assert_eq!((b.f)(2), 43);
}

#[test]
fn actor_fn_handles_inputs() {
    let mut total = 0;
    let mut a = ActorFn::new(move |i: i32| {
        total += i;
        total
    });
    assert_eq!(a.handle(1), 1);
    assert_eq!(a.handle(2), 3);
    let mut b = a.clone();
    assert_eq!(b.handle(10), 13);
    assert_eq!(a.handle(4), 7);
}

#[test]
fn actor_future_fn_keeps_its_function() {
    let a = ActorFutureFn::new(|i: i32| async move { i * 2 });
    let b = a.clone();
    let rt = tokio::runtime::Builder::new_current_thread().build().unwrap();
    assert_eq!(rt.block_on((a.function())(21)), 42);
    assert_eq!(rt.block_on((b.function())(5)), 10);
}

struct Passing;

impl Inspector<i32, String> for Passing {}

struct Counting(u32);

impl Inspector<i32, i32> for Counting {
    fn inspect_i(&mut self, i: i32) -> i32 {
        self.0 += 1;
        i + 1
    }
}

#[test]
fn inspector_passes_values_through_by_default() {
    let mut p = Passing;
    assert_eq!(p.inspect_i(3), 3);
    assert_eq!(p.inspect_o("out".to_string()), "out");
    let mut c = Counting(0);
    assert_eq!(c.inspect_i(3), 4);
    assert_eq!(c.inspect_o(9), 9);
    assert_eq!(c.0, 1);
}

#[test]
fn chain_error_holds_both_errors() {
    let e = ChainError("first", 2);
    assert_eq!(e.0, "first");
    assert_eq!(e.1, 2);
}

#[test]
fn joined_handle_takes_the_larger_depth() {
    let a = Handle::<i32, i32>::new(2);
    let b = Handle::<u8, u8>::new(7);
    assert_eq!(a.join_depth(&b), 7);
    assert_eq!(b.join_depth(&a), 7);
    let unbounded = Handle::<u8, u8>::new(0);
    assert_eq!(a.join_depth(&unbounded), 2);
}
