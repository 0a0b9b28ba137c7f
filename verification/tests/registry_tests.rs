use std::any::TypeId;
use std::cell::Cell;
use tokiactor::registry::{ActorSocket, GlobalRegisty, HandleEntry, Registry};

struct Adder;
struct Doubler;

#[test]
fn empty_registry_has_no_socket() {
    let reg: Registry<u32> = Registry::new();
    let g = GlobalRegisty::<Adder, i32, i32>::new();
    assert!(g.get(&reg).is_none());
    assert!(reg.get(&TypeId::of::<Adder>()).is_none());
}

#[test]
fn get_after_set_gives_the_socket() {
    let mut reg: Registry<u32> = Registry::new();
    let g = GlobalRegisty::<Adder, i32, i32>::new();
    g.set(&mut reg, 4, 7);
    assert_eq!(g.get(&reg), Some(&7));
    let entry = reg.get(&TypeId::of::<Adder>()).unwrap();
    assert_eq!(entry.cap, 4);
    assert_eq!(entry.sock, 7);
    g.set(&mut reg, 5, 8);
    assert_eq!(g.get(&reg), Some(&8));
    assert_eq!(reg.get(&TypeId::of::<Adder>()).unwrap().cap, 5);
}

#[test]
fn get_or_set_twice_with_one_depth_keeps_the_socket() {
    let mut reg: Registry<u32> = Registry::new();
    let g = GlobalRegisty::<Adder, i32, i32>::new();
    let calls = Cell::new(0u32);
    let first = *g.get_or_set(&mut reg, 2, || {
        calls.set(calls.get() + 1);
        10
    });
    let second = *g.get_or_set(&mut reg, 2, || {
        calls.set(calls.get() + 1);
        20
    });
    assert_eq!(first, 10);
    assert_eq!(second, 10);
    assert_eq!(calls.get(), 1);
    assert_eq!(reg.get(&TypeId::of::<Adder>()).unwrap().cap, 2);
}

#[test]
fn get_or_set_with_another_depth_replaces_the_socket() {
    let mut reg: Registry<u32> = Registry::new();
    let g = GlobalRegisty::<Adder, i32, i32>::new();
    assert_eq!(*g.get_or_set(&mut reg, 2, || 10), 10);
    assert_eq!(*g.get_or_set(&mut reg, 3, || 30), 30);
    let entry = reg.get(&TypeId::of::<Adder>()).unwrap();
    assert_eq!(entry.cap, 3);
    assert_eq!(entry.sock, 30);
    assert_eq!(*g.get_or_set(&mut reg, 3, || 99), 30);
}

#[test]
fn get_or_set_uses_a_socket_set_with_the_same_depth() {
    let mut reg: Registry<u32> = Registry::new();
    let g = GlobalRegisty::<Adder, i32, i32>::new();
    g.set(&mut reg, 0, 1);
    assert_eq!(*g.get_or_set(&mut reg, 0, || 2), 1);
    assert_eq!(*g.get_or_set(&mut reg, 1, || 2), 2);
}

#[test]
fn delete_removes_only_its_own_type() {
    let mut reg: Registry<u32> = Registry::new();
    let adder = GlobalRegisty::<Adder, i32, i32>::new();
    let doubler = GlobalRegisty::<Doubler, u8, u8>::new();
    adder.set(&mut reg, 1, 11);
    doubler.set(&mut reg, 2, 22);
    assert_eq!(adder.get(&reg), Some(&11));
    assert_eq!(doubler.get(&reg), Some(&22));
    adder.delete(&mut reg);
    assert!(adder.get(&reg).is_none());
    assert_eq!(doubler.get(&reg), Some(&22));
    adder.delete(&mut reg);
    assert!(adder.get(&reg).is_none());
    doubler.delete(&mut reg);
    assert!(doubler.get(&reg).is_none());
}

#[test]
fn registry_keeps_types_apart() {
    let mut reg: Registry<&'static str> = Registry::new();
    reg.insert(TypeId::of::<u8>(), HandleEntry { cap: 1, sock: "u8" });
    reg.insert(TypeId::of::<u16>(), HandleEntry { cap: 2, sock: "u16" });
    reg.insert(TypeId::of::<u8>(), HandleEntry { cap: 3, sock: "u8 again" });
    assert_eq!(reg.get(&TypeId::of::<u8>()).unwrap().sock, "u8 again");
    assert_eq!(reg.get(&TypeId::of::<u16>()).unwrap().sock, "u16");
    assert!(reg.get(&TypeId::of::<u32>()).is_none());
    reg.remove(&TypeId::of::<u16>());
    assert!(reg.get(&TypeId::of::<u16>()).is_none());
    assert_eq!(reg.get(&TypeId::of::<u8>()).unwrap().cap, 3);
}

#[test]
fn socket_depth_zero_is_unbounded() {
    let unbounded = ActorSocket::<i32, i32>::with_depth(0);
    assert_eq!(unbounded.tx.capacity(), None);
    let bounded = ActorSocket::<i32, i32>::with_depth(3);
    assert_eq!(bounded.tx.capacity(), Some(3));
    let copy = bounded.clone();
    assert!(copy.tx.same_channel(&bounded.tx));
}
