//! The registry of actor sockets: one channel per actor type, so that every actor
//! of a type that is spawned serves the same queue.
use crate::channel;
use std::any::TypeId;
use std::marker::PhantomData;
use vstd::prelude::*;

verus! {

/// The two ends of the channel of an actor type: inputs, each paired with the
/// sender of its reply.
#[verifier::reject_recursive_types(I)]
#[verifier::reject_recursive_types(O)]
pub struct ActorSocket<I, O> {
    pub tx: async_channel::Sender<(I, tokio::sync::oneshot::Sender<O>)>,
    pub rx: async_channel::Receiver<(I, tokio::sync::oneshot::Sender<O>)>,
}

impl<I, O> Clone for ActorSocket<I, O> {
    fn clone(&self) -> (r: Self)
        ensures
            r.tx == self.tx,
            crate::receiver_channel(r.rx) == crate::receiver_channel(self.rx),
    {
        ActorSocket { tx: channel::clone_sender(&self.tx), rx: channel::clone_receiver(&self.rx) }
    }
}

impl<I, O> ActorSocket<I, O> where I: Send + 'static, O: Send + 'static {
    /// A socket on a fresh channel of depth `cap`: unbounded when `cap` is zero.
    pub fn with_depth(cap: usize) -> (r: Self)
        ensures
            crate::linked(r.tx, r.rx),
            crate::capacity_of(r.tx) == crate::depth_capacity(cap),
    {
        let c = channel::channel_with_depth(cap);
        ActorSocket { tx: c.tx, rx: c.rx }
    }
}

/// An entry of the registry: the depth its socket was made with, and the socket.
pub struct HandleEntry<S> {
    pub cap: usize,
    pub sock: S,
}

/// The entries of the registry, keyed by the type identifier of an actor type.
/// No key occurs twice, so it stands for a map.
pub struct Registry<S> {
    entries: Vec<(TypeId, HandleEntry<S>)>,
}

/// `i` is a position of `s` that holds the key `k`.
pub open spec fn key_at<S>(s: Seq<(TypeId, HandleEntry<S>)>, k: TypeId, i: int) -> bool {
    0 <= i < s.len() && s[i].0 == k
}

/// No key occurs at two positions of `s`.
pub open spec fn keys_distinct<S>(s: Seq<(TypeId, HandleEntry<S>)>) -> bool {
    forall|i: int, j: int| 0 <= i < s.len() && 0 <= j < s.len() && i != j ==> s[i].0 != s[j].0
}

/// The map that the entries `s` stand for.
pub open spec fn entries_map<S>(s: Seq<(TypeId, HandleEntry<S>)>) -> Map<TypeId, HandleEntry<S>> {
    Map::new(
        |k: TypeId| exists|i: int| key_at(s, k, i),
        |k: TypeId| s[choose|i: int| key_at(s, k, i)].1,
    )
}

/// Where the keys are distinct, the map holds at each key the entry at its position.
proof fn lemma_entries_map_at<S>(s: Seq<(TypeId, HandleEntry<S>)>, i: int)
    requires
        keys_distinct(s),
        0 <= i < s.len(),
    ensures
        entries_map(s).dom().contains(s[i].0),
        entries_map(s)[s[i].0] == s[i].1,
{
    assert(key_at(s, s[i].0, i));
    let j = choose|j: int| key_at(s, s[i].0, j);
    assert(key_at(s, s[i].0, j));
    assert(j == i);
}

/// A key at no position is not in the map.
proof fn lemma_entries_map_absent<S>(s: Seq<(TypeId, HandleEntry<S>)>, k: TypeId)
    requires
        forall|i: int| !key_at(s, k, i),
    ensures
        !entries_map(s).dom().contains(k),
{
}

/// Entries `s` with distinct keys stand for `m` when every position holds an entry of
/// `m` under its key, and every key of `m` is at some position.
proof fn lemma_entries_map_is<S>(s: Seq<(TypeId, HandleEntry<S>)>, m: Map<TypeId, HandleEntry<S>>)
    requires
        keys_distinct(s),
        forall|i: int| 0 <= i < s.len() ==> m.dom().contains(#[trigger] s[i].0) && m[s[i].0] == s[i].1,
        forall|k: TypeId| #[trigger] m.dom().contains(k) ==> exists|i: int| key_at(s, k, i),
    ensures
        entries_map(s) == m,
{
    assert forall|k: TypeId|
        #![trigger entries_map(s).dom().contains(k)]
        entries_map(s).dom().contains(k) == m.dom().contains(k) && (m.dom().contains(k)
            ==> entries_map(s)[k] == m[k])
    by {
        if exists|i: int| key_at(s, k, i) {
            let i = choose|i: int| key_at(s, k, i);
            lemma_entries_map_at(s, i);
        } else {
            lemma_entries_map_absent(s, k);
        }
    }
    assert(entries_map(s) =~= m);
}

/// Writing `(key, entry)` over the position of `key` registers `entry` under `key`.
proof fn lemma_update_at<S>(s: Seq<(TypeId, HandleEntry<S>)>, i: int, key: TypeId, entry: HandleEntry<S>)
    requires
        keys_distinct(s),
        key_at(s, key, i),
    ensures
        keys_distinct(s.update(i, (key, entry))),
        entries_map(s.update(i, (key, entry))) == entries_map(s).insert(key, entry),
{
    let t = s.update(i, (key, entry));
    let m = entries_map(s).insert(key, entry);
    assert forall|j: int| 0 <= j < t.len() implies m.dom().contains(#[trigger] t[j].0) && m[t[j].0] == t[j].1 by {
        if j != i {
            lemma_entries_map_at(s, j);
        }
    }
    assert forall|k: TypeId| #[trigger] m.dom().contains(k) implies exists|j: int| key_at(t, k, j) by {
        if k == key {
            assert(key_at(t, k, i));
        } else {
            let j = choose|j: int| key_at(s, k, j);
            assert(key_at(t, k, j));
        }
    }
    lemma_entries_map_is(t, m);
}

/// Appending `(key, entry)` for a key at no position registers `entry` under `key`.
proof fn lemma_push_new<S>(s: Seq<(TypeId, HandleEntry<S>)>, key: TypeId, entry: HandleEntry<S>)
    requires
        keys_distinct(s),
        forall|i: int| !key_at(s, key, i),
    ensures
        keys_distinct(s.push((key, entry))),
        entries_map(s.push((key, entry))) == entries_map(s).insert(key, entry),
{
    let t = s.push((key, entry));
    let m = entries_map(s).insert(key, entry);
    assert forall|a: int, b: int| 0 <= a < t.len() && 0 <= b < t.len() && a != b implies t[a].0 != t[b].0 by {
        if a == s.len() {
            assert(!key_at(s, key, b));
        } else if b == s.len() {
            assert(!key_at(s, key, a));
        }
    }
    assert forall|j: int| 0 <= j < t.len() implies m.dom().contains(#[trigger] t[j].0) && m[t[j].0] == t[j].1 by {
        if j < s.len() {
            lemma_entries_map_at(s, j);
        }
    }
    assert forall|k: TypeId| #[trigger] m.dom().contains(k) implies exists|j: int| key_at(t, k, j) by {
        if k == key {
            assert(key_at(t, k, s.len() as int));
        } else {
            let j = choose|j: int| key_at(s, k, j);
            assert(key_at(t, k, j));
        }
    }
    lemma_entries_map_is(t, m);
}

/// Removing the position of `key` removes `key` from the map.
proof fn lemma_remove_at<S>(s: Seq<(TypeId, HandleEntry<S>)>, i: int, key: TypeId)
    requires
        keys_distinct(s),
        key_at(s, key, i),
    ensures
        keys_distinct(s.remove(i)),
        entries_map(s.remove(i)) == entries_map(s).remove(key),
{
    let t = s.remove(i);
    let m = entries_map(s).remove(key);
    assert forall|a: int, b: int| 0 <= a < t.len() && 0 <= b < t.len() && a != b implies t[a].0 != t[b].0 by {
        let oa = if a < i { a } else { a + 1 };
        let ob = if b < i { b } else { b + 1 };
        assert(t[a] == s[oa]);
        assert(t[b] == s[ob]);
    }
    assert forall|j: int| 0 <= j < t.len() implies m.dom().contains(#[trigger] t[j].0) && m[t[j].0] == t[j].1 by {
        let oj = if j < i { j } else { j + 1 };
        assert(t[j] == s[oj]);
        lemma_entries_map_at(s, oj);
    }
    assert forall|k: TypeId| #[trigger] m.dom().contains(k) implies exists|j: int| key_at(t, k, j) by {
        let j = choose|j: int| key_at(s, k, j);
        assert(j != i);
        let nj = if j < i { j } else { j - 1 };
        assert(t[nj] == s[j]);
        assert(key_at(t, k, nj));
    }
    lemma_entries_map_is(t, m);
}

impl<S> View for Registry<S> {
    type V = Map<TypeId, HandleEntry<S>>;

    closed spec fn view(&self) -> Map<TypeId, HandleEntry<S>> {
        entries_map(self.entries@)
    }
}

impl<S> Registry<S> {
    #[verifier::type_invariant]
    closed spec fn wf(self) -> bool {
        keys_distinct(self.entries@)
    }

    /// An empty registry.
    pub fn new() -> (r: Self)
        ensures
            r@ == Map::<TypeId, HandleEntry<S>>::empty(),
    {
        let r = Registry { entries: Vec::new() };
        assert(r@ =~= Map::<TypeId, HandleEntry<S>>::empty());
        r
    }

    /// The position of `key`, if it is registered.
    fn position(&self, key: &TypeId) -> (r: Option<usize>)
        ensures
            match r {
                Some(i) => key_at(self.entries@, *key, i as int),
                None => forall|i: int| !key_at(self.entries@, *key, i),
            },
    {
        let mut i: usize = 0;
        while i < self.entries.len()
            invariant
                i <= self.entries@.len(),
                forall|j: int| 0 <= j < i ==> self.entries@[j].0 != *key,
            decreases self.entries@.len() - i,
        {
            if channel::same_type_id(&self.entries[i].0, key) {
                return Some(i);
            }
            i = i + 1;
        }
        None
    }

    /// The entry registered under `key`.
    pub fn get(&self, key: &TypeId) -> (r: Option<&HandleEntry<S>>)
        ensures
            match r {
                Some(e) => self@.dom().contains(*key) && *e == self@[*key],
                None => !self@.dom().contains(*key),
            },
    {
        proof {
            use_type_invariant(self);
        }
        match self.position(key) {
            Some(i) => {
                proof {
                    lemma_entries_map_at(self.entries@, i as int);
                }
                Some(&self.entries[i].1)
            },
            None => {
                proof {
                    lemma_entries_map_absent(self.entries@, *key);
                }
                None
            },
        }
    }

    /// Registers `entry` under `key`, in place of the entry registered there before.
    pub fn insert(&mut self, key: TypeId, entry: HandleEntry<S>)
        ensures
            final(self)@ == old(self)@.insert(key, entry),
    {
        proof {
            use_type_invariant(&*self);
        }
        let found = self.position(&key);
        let mut entries: Vec<(TypeId, HandleEntry<S>)> = Vec::new();
        std::mem::swap(&mut entries, &mut self.entries);
        match found {
            Some(i) => {
                proof {
                    lemma_update_at(entries@, i as int, key, entry);
                }
                entries.set(i, (key, entry));
            },
            None => {
                proof {
                    lemma_push_new(entries@, key, entry);
                }
                entries.push((key, entry));
            },
        }
        self.entries = entries;
    }

    /// Removes the entry registered under `key`, if there is one.
    pub fn remove(&mut self, key: &TypeId)
        ensures
            final(self)@ == old(self)@.remove(*key),
    {
        proof {
            use_type_invariant(&*self);
        }
        match self.position(key) {
            Some(i) => {
                let mut entries: Vec<(TypeId, HandleEntry<S>)> = Vec::new();
                std::mem::swap(&mut entries, &mut self.entries);
                proof {
                    lemma_remove_at(entries@, i as int, *key);
                }
                entries.remove(i);
                self.entries = entries;
            },
            None => {
                proof {
                    lemma_entries_map_absent(self.entries@, *key);
                    assert(old(self)@.remove(*key) =~= old(self)@);
                }
            },
        }
    }
}

/// `m` registers under `key` a socket of depth `cap`.
pub open spec fn registered_with_depth<S>(m: Map<TypeId, HandleEntry<S>>, key: TypeId, cap: usize) -> bool {
    m.dom().contains(key) && m[key].cap == cap
}

/// What `get_or_set` with depth `cap` leaves (`after`) and gives (`r`): the socket
/// registered under `key` when it has that depth, with the registry unchanged;
/// otherwise `r`, registered under `key` with depth `cap` in place of what was there.
pub open spec fn get_or_set_outcome<S>(
    before: Map<TypeId, HandleEntry<S>>,
    key: TypeId,
    cap: usize,
    after: Map<TypeId, HandleEntry<S>>,
    r: S,
) -> bool {
    if registered_with_depth(before, key, cap) {
        &&& after == before
        &&& r == before[key].sock
    } else {
        after == before.insert(key, HandleEntry { cap, sock: r })
    }
}

/// Asking twice for the socket of one key with one depth gives the same socket, and
/// the second ask leaves the registry as the first left it. With `ActorSocket::clone`,
/// which keeps both ends of the channel, the sockets handed out by the two asks are
/// the same: the actors spawned on them serve one channel.
pub proof fn law_get_or_set_twice<S>(
    m0: Map<TypeId, HandleEntry<S>>,
    m1: Map<TypeId, HandleEntry<S>>,
    m2: Map<TypeId, HandleEntry<S>>,
    key: TypeId,
    cap: usize,
    r1: S,
    r2: S,
)
    requires
        get_or_set_outcome(m0, key, cap, m1, r1),
        get_or_set_outcome(m1, key, cap, m2, r2),
    ensures
        r2 == r1,
        m2 == m1,
        m1.dom().contains(key),
        m1[key] == (HandleEntry { cap, sock: r1 }),
{
}

/// After `get_or_set` with depth `cap`, the key holds a socket of that depth, and
/// it is the socket given back.
pub proof fn law_get_or_set_registers<S>(
    m0: Map<TypeId, HandleEntry<S>>,
    m1: Map<TypeId, HandleEntry<S>>,
    key: TypeId,
    cap: usize,
    r: S,
)
    requires
        get_or_set_outcome(m0, key, cap, m1, r),
    ensures
        m1.dom().contains(key),
        m1[key].cap == cap,
        m1[key].sock == r,
{
}

/// `get_or_set` under one key leaves the entries of every other key as they were.
pub proof fn law_get_or_set_other_keys<S>(
    m0: Map<TypeId, HandleEntry<S>>,
    m1: Map<TypeId, HandleEntry<S>>,
    key: TypeId,
    cap: usize,
    r: S,
    other: TypeId,
)
    requires
        get_or_set_outcome(m0, key, cap, m1, r),
        other != key,
    ensures
        m1.dom().contains(other) == m0.dom().contains(other),
        m0.dom().contains(other) ==> m1[other] == m0[other],
{
}

/// What `get` finds under `key` in the registry `m`: the registered socket, if any.
pub open spec fn lookup<S>(m: Map<TypeId, HandleEntry<S>>, key: TypeId) -> Option<S> {
    if m.dom().contains(key) {
        Some(m[key].sock)
    } else {
        None
    }
}

/// What `set` registers is what `get` finds afterwards, and `get` finds under every
/// other key what it found before.
pub proof fn law_get_after_set<S>(m: Map<TypeId, HandleEntry<S>>, key: TypeId, cap: usize, sock: S, other: TypeId)
    ensures
        lookup(m.insert(key, HandleEntry { cap, sock }), key) == Some(sock),
        other != key ==> lookup(m.insert(key, HandleEntry { cap, sock }), other) == lookup(m, other),
{
}

/// After `delete`, `get` finds nothing under the key, and under every other key what
/// it found before.
pub proof fn law_get_after_delete<S>(m: Map<TypeId, HandleEntry<S>>, key: TypeId, other: TypeId)
    ensures
        lookup(m.remove(key), key) is None,
        other != key ==> lookup(m.remove(key), other) == lookup(m, other),
{
}

/// After `get_or_set`, `get` finds the socket that `get_or_set` gave.
pub proof fn law_get_after_get_or_set<S>(
    m0: Map<TypeId, HandleEntry<S>>,
    m1: Map<TypeId, HandleEntry<S>>,
    key: TypeId,
    cap: usize,
    r: S,
)
    requires
        get_or_set_outcome(m0, key, cap, m1, r),
    ensures
        lookup(m1, key) == Some(r),
{
}

/// Two asks with one depth hand out sockets on one channel: what is sent on the
/// sender of a clone of either socket reaches the receivers of clones of both.
pub proof fn law_asks_share_channel<I, O>(
    m0: Map<TypeId, HandleEntry<ActorSocket<I, O>>>,
    m1: Map<TypeId, HandleEntry<ActorSocket<I, O>>>,
    m2: Map<TypeId, HandleEntry<ActorSocket<I, O>>>,
    key: TypeId,
    cap: usize,
    r1: ActorSocket<I, O>,
    r2: ActorSocket<I, O>,
    c1: ActorSocket<I, O>,
    c2: ActorSocket<I, O>,
)
    requires
        get_or_set_outcome(m0, key, cap, m1, r1),
        get_or_set_outcome(m1, key, cap, m2, r2),
        crate::linked(r1.tx, r1.rx),
        c1.tx == r1.tx,
        crate::receiver_channel(c1.rx) == crate::receiver_channel(r1.rx),
        c2.tx == r2.tx,
        crate::receiver_channel(c2.rx) == crate::receiver_channel(r2.rx),
    ensures
        crate::linked(c1.tx, c2.rx),
        crate::linked(c2.tx, c1.rx),
{
}

/// For one actor type the key does not depend on the input and output types: what
/// one view of `T` registers, every other view of `T` finds.
pub proof fn law_key_is_the_actor_type<T, I1, O1, I2, O2, S>(
    a: GlobalRegisty<T, I1, O1>,
    b: GlobalRegisty<T, I2, O2>,
    m: Map<TypeId, HandleEntry<S>>,
    cap: usize,
    sock: S,
)
    ensures
        a.key() == b.key(),
        lookup(m.insert(a.key(), HandleEntry { cap, sock }), b.key()) == Some(sock),
{
}

/// The registry as seen from one actor type `T` whose actors take `I` and give `O`.
#[verifier::reject_recursive_types(T)]
#[verifier::reject_recursive_types(I)]
#[verifier::reject_recursive_types(O)]
pub struct GlobalRegisty<T, I, O> {
    key: TypeId,
    _t: PhantomData<T>,
    _i: PhantomData<I>,
    _o: PhantomData<O>,
}

impl<T, I, O> GlobalRegisty<T, I, O> {
    /// The key under which the sockets of `T` are registered: the identifier of the
    /// actor type `T`, whatever `I` and `O` are.
    pub closed spec fn key(&self) -> TypeId {
        crate::type_key::<T>()
    }

    #[verifier::type_invariant]
    closed spec fn keyed_by_actor_type(self) -> bool {
        self.key == crate::type_key::<T>()
    }
}

impl<T, I, O> GlobalRegisty<T, I, O> where T: Sized + Send + 'static, I: Send + 'static, O: Send + 'static {
    /// The registry's view of the actor type `T`, keyed by its type identifier.
    pub fn new() -> (r: Self) {
        GlobalRegisty { key: channel::type_id_of::<T>(), _t: PhantomData, _i: PhantomData, _o: PhantomData }
    }

    /// The socket registered for `T`, if any.
    pub fn get<'a, S>(&self, reg: &'a Registry<S>) -> (r: Option<&'a S>)
        ensures
            lookup(reg@, self.key()) == match r {
                Some(s) => Some(*s),
                None => None::<S>,
            },
    {
        proof {
            use_type_invariant(self);
        }
        match reg.get(&self.key) {
            Some(entry) => Some(&entry.sock),
            None => None,
        }
    }

    /// Registers `sock`, a socket of depth `cap`, for `T`, in place of the one
    /// registered before.
    pub fn set<S>(&self, reg: &mut Registry<S>, cap: usize, sock: S)
        ensures
            final(reg)@ == old(reg)@.insert(self.key(), HandleEntry { cap, sock }),
    {
        proof {
            use_type_invariant(self);
        }
        reg.insert(self.key, HandleEntry { cap, sock });
    }

    /// The socket of `T` of depth `cap`: the registered one if it was made with
    /// that depth; otherwise one that `create` makes, which is registered in place
    /// of the one before.
    pub fn get_or_set<'a, S, F: FnOnce() -> S>(&self, reg: &'a mut Registry<S>, cap: usize, create: F) -> (r: &'a S)
        requires
            create.requires(()),
        ensures
            get_or_set_outcome(old(reg)@, self.key(), cap, final(reg)@, *r),
            !registered_with_depth(old(reg)@, self.key(), cap) ==> create.ensures((), *r),
    {
        proof {
            use_type_invariant(self);
        }
        let keep = match reg.get(&self.key) {
            Some(entry) => entry.cap == cap,
            None => false,
        };
        if !keep {
            let sock = create();
            reg.insert(self.key, HandleEntry { cap, sock });
        }
        let reg_ref: &'a Registry<S> = reg;
        match reg_ref.get(&self.key) {
            Some(entry) => &entry.sock,
            None => {
                proof {
                    assert(false);
                }
                vstd::pervasive::unreached()
            },
        }
    }

    /// Removes the socket registered for `T`.
    pub fn delete<S>(&self, reg: &mut Registry<S>)
        ensures
            final(reg)@ == old(reg)@.remove(self.key()),
    {
        proof {
            use_type_invariant(self);
        }
        reg.remove(&self.key);
    }
}

} // verus!
