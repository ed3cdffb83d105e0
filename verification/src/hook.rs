//! Hook chains: an insertion-ordered registry of handlers for one
//! intercepted call, walked from the most recent registration down to the
//! sentinel that trampolines into the original function.
//!
//! A handler is known here by an identifier under which its owner finds
//! the code to run; the key of a registration is the identity of that
//! code, by which the registration is found again and released. The
//! registry decides the order of the calls and nothing else: a handler
//! gets the rest of the chain as a continuation and calls the next
//! handler itself, or leaves it be and so cuts the chain short.

use indexmap::IndexMap;
use std::collections::hash_map::RandomState;
use std::mem::ManuallyDrop;
use vstd::prelude::*;

verus! {

/// `indexmap::IndexMap`: a hash map that iterates in the order of
/// insertion. It is carried as an opaque value; what it holds is
/// `map_entries`.
#[verifier::external_type_specification]
#[verifier::external_body]
#[verifier::reject_recursive_types(K)]
#[verifier::reject_recursive_types(V)]
#[verifier::reject_recursive_types(S)]
pub struct ExIndexMap<K, V, S>(IndexMap<K, V, S>);

/// The `(key, handler)` pairs that an `IndexMap` holds, in the order in
/// which the map iterates over them. The order is that of insertion and
/// does not depend on how the keys hash.
pub uninterp spec fn map_entries(map: IndexMap<usize, u64, RandomState>) -> Seq<(usize, u64)>;

/// No two entries of a chain share a key.
pub open spec fn distinct_keys(chain: Seq<(usize, u64)>) -> bool {
    forall|i: int, j: int| 0 <= i < j < chain.len() ==> chain[i].0 != chain[j].0
}

/// Some entry of the chain is registered under `key`.
pub open spec fn has_key(chain: Seq<(usize, u64)>, key: usize) -> bool {
    exists|i: int| 0 <= i < chain.len() && chain[i].0 == key
}

/// `IndexMap::new`: the fresh map holds no entries.
#[verifier::external_body]
fn map_new() -> (map: IndexMap<usize, u64, RandomState>)
    ensures
        map_entries(map) == Seq::<(usize, u64)>::empty(),
{
    IndexMap::new()
}

/// `IndexMap::len`: the number of entries held.
#[verifier::external_body]
fn map_len(map: &IndexMap<usize, u64, RandomState>) -> (n: usize)
    ensures
        n == map_entries(*map).len(),
{
    map.len()
}

/// `IndexMap::insert`: an equivalent key keeps its place and has its
/// value replaced, the old value being returned; a new key is appended
/// last and `None` is returned.
#[verifier::external_body]
fn map_insert(map: &mut IndexMap<usize, u64, RandomState>, key: usize, value: u64) -> (old_value:
    Option<u64>)
    ensures
        !has_key(map_entries(*old(map)), key) ==> old_value.is_none() && map_entries(*final(map))
            == map_entries(*old(map)).push((key, value)),
        forall|i: int|
            0 <= i < map_entries(*old(map)).len() && map_entries(*old(map))[i].0 == key
                ==> old_value == Some(map_entries(*old(map))[i].1) && map_entries(*final(map))
                == map_entries(*old(map)).update(i, (key, value)),
{
    map.insert(key, value)
}

/// `IndexMap::shift_remove`: the entry of an equivalent key is taken out,
/// the entries behind it move up by one in unchanged order, and its value
/// is returned; without such an entry the map stays as it is.
#[verifier::external_body]
fn map_shift_remove(map: &mut IndexMap<usize, u64, RandomState>, key: usize) -> (value: Option<u64>)
    ensures
        !has_key(map_entries(*old(map)), key) ==> value.is_none() && map_entries(*final(map))
            == map_entries(*old(map)),
        forall|i: int|
            0 <= i < map_entries(*old(map)).len() && map_entries(*old(map))[i].0 == key
                ==> value == Some(map_entries(*old(map))[i].1) && map_entries(*final(map))
                == map_entries(*old(map)).remove(i),
{
    map.shift_remove(&key)
}

/// `IndexMap::get`: the value stored for an equivalent key, if any.
#[verifier::external_body]
fn map_get<'a>(map: &'a IndexMap<usize, u64, RandomState>, key: usize) -> (value: Option<&'a u64>)
    ensures
        !has_key(map_entries(*map), key) ==> value.is_none(),
        forall|i: int|
            0 <= i < map_entries(*map).len() && map_entries(*map)[i].0 == key ==> value == Some(
                &map_entries(*map)[i].1,
            ),
{
    map.get(&key)
}

/// `IndexMap::get_index`: the entry at a position of the iteration order,
/// `None` from the length on.
#[verifier::external_body]
fn map_get_index<'a>(map: &'a IndexMap<usize, u64, RandomState>, index: usize) -> (entry: Option<
    (&'a usize, &'a u64),
>)
    ensures
        index >= map_entries(*map).len() ==> entry.is_none(),
        index < map_entries(*map).len() ==> entry == Some(
            (&map_entries(*map)[index as int].0, &map_entries(*map)[index as int].1),
        ),
{
    map.get_index(index)
}

/// The position of the entry registered under `key`.
pub open spec fn key_index(chain: Seq<(usize, u64)>, key: usize) -> int {
    choose|i: int| 0 <= i < chain.len() && chain[i].0 == key
}

/// The handler registered under `key`, if any.
pub open spec fn handler_of(chain: Seq<(usize, u64)>, key: usize) -> Option<u64> {
    if has_key(chain, key) {
        Some(chain[key_index(chain, key)].1)
    } else {
        None
    }
}

/// The chain after registering `handler` under `key`: a key already
/// present keeps its place and gets the new handler, a new key goes last.
pub open spec fn inserted(chain: Seq<(usize, u64)>, key: usize, handler: u64) -> Seq<
    (usize, u64),
> {
    if has_key(chain, key) {
        chain.update(key_index(chain, key), (key, handler))
    } else {
        chain.push((key, handler))
    }
}

/// The chain after removing `key`: its entry leaves, every other entry
/// stays, in unchanged order.
pub open spec fn removed(chain: Seq<(usize, u64)>, key: usize) -> Seq<(usize, u64)> {
    if has_key(chain, key) {
        chain.remove(key_index(chain, key))
    } else {
        chain
    }
}

/// The order in which a dispatch reaches the entries of a chain: the most
/// recent registration first, the first registration last.
pub open spec fn call_order(chain: Seq<(usize, u64)>) -> Seq<(usize, u64)> {
    chain.reverse()
}

/// Registering a handler keeps the keys of a chain distinct.
pub proof fn lemma_inserted_distinct(chain: Seq<(usize, u64)>, key: usize, handler: u64)
    requires
        distinct_keys(chain),
    ensures
        distinct_keys(inserted(chain, key, handler)),
        has_key(inserted(chain, key, handler), key),
        handler_of(inserted(chain, key, handler), key) == Some(handler),
{
    let after = inserted(chain, key, handler);
    if has_key(chain, key) {
        let at = key_index(chain, key);
        assert(after[at].0 == key);
        assert forall|i: int| 0 <= i < after.len() && after[i].0 == key implies i == at by {
            if i != at {
                assert(chain[i].0 == key);
            }
        }
    } else {
        let at = chain.len() as int;
        assert(after[at].0 == key);
        assert forall|i: int| 0 <= i < after.len() && after[i].0 == key implies i == at by {
            if i != at {
                assert(chain[i].0 == key);
            }
        }
    }
}

/// Removing a key keeps the keys of a chain distinct and leaves no entry
/// under that key.
pub proof fn lemma_removed_distinct(chain: Seq<(usize, u64)>, key: usize)
    requires
        distinct_keys(chain),
    ensures
        distinct_keys(removed(chain, key)),
        !has_key(removed(chain, key), key),
{
    let after = removed(chain, key);
    if has_key(chain, key) {
        let at = key_index(chain, key);
        assert forall|i: int| 0 <= i < after.len() implies after[i].0 != key by {
            if i < at {
                assert(after[i] == chain[i]);
            } else {
                assert(after[i] == chain[i + 1]);
            }
        }
        assert forall|i: int, j: int| 0 <= i < j < after.len() implies after[i].0 != after[j].0 by {
            let si = if i < at { i } else { i + 1 };
            let sj = if j < at { j } else { j + 1 };
            assert(after[i] == chain[si]);
            assert(after[j] == chain[sj]);
        }
    }
}

/// The handlers of a sequence of entries, in the same order.
pub open spec fn handlers(entries: Seq<(usize, u64)>) -> Seq<u64> {
    entries.map_values(|entry: (usize, u64)| entry.1)
}

/// An insertion-ordered map from identity key to handler.
pub struct HookRegistry {
    map: IndexMap<usize, u64, RandomState>,
}

impl View for HookRegistry {
    type V = Seq<(usize, u64)>;

    closed spec fn view(&self) -> Seq<(usize, u64)> {
        map_entries(self.map)
    }
}

impl HookRegistry {
    /// The registry's invariant: a key stands for at most one handler.
    pub open spec fn wf(&self) -> bool {
        distinct_keys(self@)
    }

    /// An empty registry.
    pub fn new() -> (registry: HookRegistry)
        ensures
            registry.wf(),
            registry@ == Seq::<(usize, u64)>::empty(),
    {
        HookRegistry { map: map_new() }
    }

    /// The number of registered handlers.
    pub fn len(&self) -> (n: usize)
        ensures
            n == self@.len(),
    {
        map_len(&self.map)
    }

    /// Whether no handler is registered.
    pub fn is_empty(&self) -> (empty: bool)
        ensures
            empty <==> self@.len() == 0,
    {
        map_len(&self.map) == 0
    }

    /// Whether a handler is registered under `key`.
    pub fn contains_key(&self, key: usize) -> (found: bool)
        ensures
            found <==> has_key(self@, key),
    {
        map_get(&self.map, key).is_some()
    }

    /// The handler registered under `key`.
    pub fn get(&self, key: usize) -> (handler: Option<&u64>)
        requires
            self.wf(),
        ensures
            handler == match handler_of(self@, key) {
                Some(h) => Some(&h),
                None => None,
            },
    {
        map_get(&self.map, key)
    }

    /// The entry at `index` of the insertion order.
    pub fn get_index(&self, index: usize) -> (entry: Option<(usize, &u64)>)
        ensures
            index >= self@.len() ==> entry.is_none(),
            index < self@.len() ==> entry == Some((self@[index as int].0, &self@[index as int].1)),
    {
        match map_get_index(&self.map, index) {
            Some((key, handler)) => Some((*key, handler)),
            None => None,
        }
    }

    /// The most recently registered entry.
    pub fn last(&self) -> (entry: Option<(usize, &u64)>)
        ensures
            self@.len() == 0 ==> entry.is_none(),
            self@.len() > 0 ==> entry == Some((self@.last().0, &self@.last().1)),
    {
        let n = map_len(&self.map);
        if n == 0 {
            None
        } else {
            self.get_index(n - 1)
        }
    }

    /// Registers `handler` under `key`. A key that is already registered
    /// keeps its place in the order and only changes its handler; the
    /// handler it stood for before is returned.
    pub fn insert(&mut self, key: usize, handler: u64) -> (previous: Option<u64>)
        requires
            old(self).wf(),
        ensures
            final(self).wf(),
            final(self)@ == inserted(old(self)@, key, handler),
            previous == handler_of(old(self)@, key),
    {
        let previous = map_insert(&mut self.map, key, handler);
        proof {
            lemma_inserted_distinct(old(self)@, key, handler);
        }
        previous
    }

    /// Removes the entry registered under `key` and returns its handler.
    /// Every other entry stays, in unchanged order.
    pub fn remove(&mut self, key: usize) -> (handler: Option<u64>)
        requires
            old(self).wf(),
        ensures
            final(self).wf(),
            final(self)@ == removed(old(self)@, key),
            handler == handler_of(old(self)@, key),
    {
        let handler = map_shift_remove(&mut self.map, key);
        proof {
            lemma_removed_distinct(old(self)@, key);
        }
        handler
    }
}

/// The continuation handed to a handler: what is left of the call chain.
pub trait HookChain<'a, T> {
    /// The handlers that the chain has yet to hand out, next one first.
    spec fn pending_handlers(&self) -> Seq<T>;

    /// Gets the next handler in the call chain.
    /// Every hook must advance the call chain for the next hook and return
    /// the result. Asking an exhausted chain is a logic error: the sentinel
    /// that calls the original function ends every chain and asks nothing.
    fn fp_next(&mut self) -> (fp: &'a T)
        requires
            old(self).pending_handlers().len() > 0,
        ensures
            *fp == old(self).pending_handlers()[0],
            final(self).pending_handlers() == old(self).pending_handlers().skip(1),
    ;
}

/// The token of a registration. Releasing it takes the registration out
/// of its chains again.
pub trait HookHandle: Sized {
    /// Persist the hook and do not remove it: the handle comes back in a
    /// wrapper that is never released.
    fn persist(self) -> (kept: ManuallyDrop<Self>)
        ensures
            kept@ == self,
    {
        ManuallyDrop::new(self)
    }
}

/// A cursor that walks a registry backwards, from a position of the
/// insertion order down to the first registration. It borrows the
/// registry, so what it walks cannot change under it.
pub struct ChainContext<'a> {
    registry: &'a HookRegistry,
    remaining: usize,
}

impl<'a> ChainContext<'a> {
    /// The cursor's invariant: it stands inside its registry.
    pub closed spec fn wf(&self) -> bool {
        self.remaining <= self.registry@.len()
    }

    /// The entries that the cursor has yet to yield, next one first.
    pub closed spec fn pending(&self) -> Seq<(usize, u64)> {
        call_order(self.registry@.take(self.remaining as int))
    }

    /// The cursor that yields the entries in front of `position`.
    pub closed spec fn spec_before(registry: &'a HookRegistry, position: nat) -> ChainContext<'a> {
        ChainContext {
            registry,
            remaining: if position <= registry@.len() {
                position as usize
            } else {
                registry@.len() as usize
            },
        }
    }

    /// A cursor that yields the entries in front of `position`, nearest
    /// first. A position past the end stands for the end.
    pub fn before(registry: &'a HookRegistry, position: usize) -> (cursor: ChainContext<'a>)
        ensures
            cursor == ChainContext::spec_before(registry, position as nat),
            cursor.wf(),
            cursor.pending() == call_order(
                registry@.take(
                    if position <= registry@.len() {
                        position as int
                    } else {
                        registry@.len() as int
                    },
                ),
            ),
    {
        let n = registry.len();
        ChainContext { registry, remaining: if position <= n { position } else { n } }
    }

    /// The number of entries that are left.
    pub fn remaining(&self) -> (n: usize)
        requires
            self.wf(),
        ensures
            n == self.pending().len(),
    {
        self.remaining
    }

    /// Yields the next entry, `None` once the chain is exhausted.
    pub fn next_entry(&mut self) -> (entry: Option<(usize, &'a u64)>)
        requires
            old(self).wf(),
        ensures
            final(self).wf(),
            old(self).pending().len() == 0 ==> entry.is_none() && final(self).pending() == old(
                self,
            ).pending(),
            old(self).pending().len() > 0 ==> entry == Some(
                (old(self).pending()[0].0, &old(self).pending()[0].1),
            ) && final(self).pending() == old(self).pending().skip(1),
    {
        if self.remaining == 0 {
            None
        } else {
            let at = self.remaining - 1;
            let entry = self.registry.get_index(at);
            self.remaining = at;
            proof {
                let chain = self.registry@;
                assert(chain.take(at as int).reverse() =~= chain.take(at + 1).reverse().skip(1));
            }
            entry
        }
    }
}

impl<'a> HookChain<'a, u64> for ChainContext<'a> {
    open spec fn pending_handlers(&self) -> Seq<u64> {
        if self.wf() {
            handlers(self.pending())
        } else {
            Seq::empty()
        }
    }

    fn fp_next(&mut self) -> (fp: &'a u64) {
        let at = self.remaining - 1;
        let entry = self.registry.get_index(at);
        self.remaining = at;
        proof {
            let chain = self.registry@;
            assert(chain.take(at as int).reverse() =~= chain.take(at + 1).reverse().skip(1));
            assert(final(self).pending_handlers() =~= old(self).pending_handlers().skip(1));
        }
        match entry {
            Some((_, handler)) => handler,
            None => vstd::pervasive::unreached(),
        }
    }
}

/// Where an intercepted call goes first.
pub enum Dispatch<'a> {
    /// Straight to the original function: no handler is registered, or the
    /// chain could not be read.
    Original,
    /// To the most recently registered handler, together with the rest of
    /// the chain, which that handler advances itself.
    Handler(&'a u64, ChainContext<'a>),
}

/// The entry point of an intercepted call. `chain` is the registry as the
/// read lock gave it, `None` where the lock could not be taken: the host's
/// call then goes through untouched.
pub fn dispatch<'a>(chain: Option<&'a HookRegistry>) -> (target: Dispatch<'a>)
    ensures
        match chain {
            None => target is Original,
            Some(registry) => if registry@.len() == 0 {
                target is Original
            } else {
                &&& target matches Dispatch::Handler(first, next)
                &&& next == ChainContext::spec_before(registry, (registry@.len() - 1) as nat)
                &&& next.wf()
                &&& *first == call_order(registry@)[0].1
                &&& next.pending() == call_order(registry@).skip(1)
            },
        },
{
    match chain {
        None => Dispatch::Original,
        Some(registry) => {
            match registry.last() {
                None => Dispatch::Original,
                Some((_, first)) => {
                    // The chain handed on starts behind the entry that is
                    // about to run.
                    let next = ChainContext::before(registry, registry.len() - 1);
                    proof {
                        let chain = registry@;
                        assert(chain.take(chain.len() - 1).reverse() =~= chain.reverse().skip(1));
                    }
                    Dispatch::Handler(first, next)
                },
            }
        },
    }
}

/// Runs an intercepted call: through `handler` where the chain has one,
/// straight through `original` otherwise. The handler gets the most
/// recent registration and the rest of the chain; the arguments go in as
/// they came, and what comes back is handed on as it is.
pub fn call<'a, A, R, H, O>(chain: Option<&'a HookRegistry>, args: A, handler: H, original: O) -> (result:
    R) where H: FnOnce(&'a u64, A, ChainContext<'a>) -> R, O: FnOnce(A) -> R
    requires
        original.requires((args,)),
        forall|first: &'a u64, next: ChainContext<'a>| handler.requires((first, args, next)),
    ensures
        match chain {
            Some(registry) if registry@.len() > 0 => handler.ensures(
                (
                    &registry@.last().1,
                    args,
                    ChainContext::spec_before(registry, (registry@.len() - 1) as nat),
                ),
                result,
            ),
            _ => original.ensures((args,), result),
        },
{
    match dispatch(chain) {
        Dispatch::Handler(first, next) => handler(first, args, next),
        Dispatch::Original => original(args),
    }
}

/// The key under which every chain holds its sentinel: the handler that
/// calls the original function and asks the chain for nothing more.
pub const SENTINEL_KEY: usize = 0;

/// A chain is linked when the sentinel was its first registration, and so
/// is the last handler that a dispatch reaches.
pub open spec fn linked(chain: Seq<(usize, u64)>) -> bool {
    chain.len() > 0 && chain[0].0 == SENTINEL_KEY
}

/// The chain after a run of registrations, made in the order given.
pub open spec fn registered(chain: Seq<(usize, u64)>, registrations: Seq<(usize, u64)>) -> Seq<
    (usize, u64),
>
    decreases registrations.len(),
{
    if registrations.len() == 0 {
        chain
    } else {
        inserted(
            registered(chain, registrations.drop_last()),
            registrations.last().0,
            registrations.last().1,
        )
    }
}

/// One change to a chain.
pub enum ChainOp {
    /// A handler is registered under a key.
    Insert(usize, u64),
    /// The registration under a key is released.
    Remove(usize),
}

impl ChainOp {
    /// The key that the change names.
    pub open spec fn key(self) -> usize {
        match self {
            ChainOp::Insert(key, _) => key,
            ChainOp::Remove(key) => key,
        }
    }
}

/// The chain after a run of changes, made in the order given.
pub open spec fn applied(chain: Seq<(usize, u64)>, ops: Seq<ChainOp>) -> Seq<(usize, u64)>
    decreases ops.len(),
{
    if ops.len() == 0 {
        chain
    } else {
        let before = applied(chain, ops.drop_last());
        match ops.last() {
            ChainOp::Insert(key, handler) => inserted(before, key, handler),
            ChainOp::Remove(key) => removed(before, key),
        }
    }
}

/// Registrations under fresh keys line up behind the chain in the order
/// in which they were made.
pub proof fn lemma_registered_appends(chain: Seq<(usize, u64)>, registrations: Seq<(usize, u64)>)
    requires
        distinct_keys(chain + registrations),
    ensures
        registered(chain, registrations) == chain + registrations,
    decreases registrations.len(),
{
    if registrations.len() == 0 {
        assert(chain + registrations =~= chain);
    } else {
        let all = chain + registrations;
        let front = registrations.drop_last();
        let newest = registrations.last();
        assert forall|i: int, j: int| 0 <= i < j < (chain + front).len() implies (chain
            + front)[i].0 != (chain + front)[j].0 by {
            assert((chain + front)[i] == all[i]);
            assert((chain + front)[j] == all[j]);
        }
        lemma_registered_appends(chain, front);
        assert(all[all.len() - 1] == newest);
        assert forall|i: int| 0 <= i < (chain + front).len() implies (chain + front)[i].0
            != newest.0 by {
            assert((chain + front)[i] == all[i]);
        }
        assert((chain + front).push(newest) =~= all);
    }
}

/// Chain ordering. After `n` registrations under fresh keys, a dispatch
/// reaches the `n`-th registered handler first, the first registered one
/// after `n - 1` further steps, and behind it what the chain held before,
/// which for a linked chain ends in the sentinel.
pub proof fn lemma_chain_ordering(chain: Seq<(usize, u64)>, registrations: Seq<(usize, u64)>)
    requires
        distinct_keys(chain + registrations),
    ensures
        call_order(registered(chain, registrations)) == call_order(registrations) + call_order(
            chain,
        ),
        forall|i: int|
            0 <= i < registrations.len() ==> call_order(registered(chain, registrations))[i]
                == registrations[registrations.len() - 1 - i],
        forall|i: int|
            registrations.len() <= i < registrations.len() + chain.len() ==> call_order(
                registered(chain, registrations),
            )[i] == chain[chain.len() - 1 - (i - registrations.len())],
        linked(chain) ==> call_order(registered(chain, registrations)).last().0 == SENTINEL_KEY,
{
    lemma_registered_appends(chain, registrations);
    assert((chain + registrations).reverse() =~= registrations.reverse() + chain.reverse());
}

/// Reversing the order of registration reverses the order in which a
/// dispatch reaches the registered handlers.
pub proof fn lemma_reversed_registration(chain: Seq<(usize, u64)>, registrations: Seq<(usize, u64)>)
    requires
        distinct_keys(chain + registrations),
    ensures
        call_order(registered(chain, registrations.reverse())).take(registrations.len() as int)
            == call_order(registered(chain, registrations)).take(
            registrations.len() as int,
        ).reverse(),
        call_order(registered(chain, registrations.reverse())).skip(registrations.len() as int)
            == call_order(registered(chain, registrations)).skip(registrations.len() as int),
{
    let backwards = registrations.reverse();
    let n = registrations.len() as int;
    assert forall|i: int, j: int| 0 <= i < j < (chain + backwards).len() implies (chain
        + backwards)[i].0 != (chain + backwards)[j].0 by {
        let all = chain + registrations;
        let c = chain.len() as int;
        let si = if i < c { i } else { c + (n - 1 - (i - c)) };
        let sj = if j < c { j } else { c + (n - 1 - (j - c)) };
        assert((chain + backwards)[i] == all[si]);
        assert((chain + backwards)[j] == all[sj]);
        if si < sj {
            assert(all[si].0 != all[sj].0);
        } else {
            assert(all[sj].0 != all[si].0);
        }
    }
    lemma_chain_ordering(chain, registrations);
    lemma_chain_ordering(chain, backwards);
    let forward_order = call_order(registered(chain, registrations));
    let backward_order = call_order(registered(chain, backwards));
    assert(backward_order.take(n) =~= forward_order.take(n).reverse());
    assert(backward_order.skip(n) =~= forward_order.skip(n));
}

/// Identity-keyed removal. Releasing a registration that was made under a
/// fresh key gives back the chain as it was before the registration.
pub proof fn lemma_release_undoes_registration(chain: Seq<(usize, u64)>, key: usize, handler: u64)
    requires
        distinct_keys(chain),
        !has_key(chain, key),
    ensures
        removed(inserted(chain, key, handler), key) == chain,
{
    let after = inserted(chain, key, handler);
    lemma_inserted_distinct(chain, key, handler);
    let at = chain.len() as int;
    assert(after[at].0 == key);
    assert(key_index(after, key) == at);
    assert(after.remove(at) =~= chain);
}

/// Identity-keyed removal. Releasing a key takes out the entry of that
/// key and no other: every other key keeps its handler, and the entries
/// that stay keep their order.
pub proof fn lemma_removed_exact(chain: Seq<(usize, u64)>, key: usize)
    requires
        distinct_keys(chain),
    ensures
        !has_key(removed(chain, key), key),
        forall|other: usize|
            other != key ==> has_key(removed(chain, key), other) == has_key(chain, other)
                && handler_of(removed(chain, key), other) == handler_of(chain, other),
        removed(chain, key) == chain.filter(|entry: (usize, u64)| entry.0 != key),
{
    lemma_removed_distinct(chain, key);
    let after = removed(chain, key);
    assert forall|other: usize| other != key implies has_key(after, other) == has_key(
        chain,
        other,
    ) && handler_of(after, other) == handler_of(chain, other) by {
        lemma_removed_keeps(chain, key, other);
    }
    lemma_removed_is_filter(chain, key);
}

/// Releasing one key leaves the registration of another key as it is.
pub proof fn lemma_removed_keeps(chain: Seq<(usize, u64)>, key: usize, other: usize)
    requires
        distinct_keys(chain),
        other != key,
    ensures
        has_key(removed(chain, key), other) == has_key(chain, other),
        handler_of(removed(chain, key), other) == handler_of(chain, other),
{
    lemma_removed_distinct(chain, key);
    let after = removed(chain, key);
    if has_key(chain, key) {
        let at = key_index(chain, key);
        if has_key(chain, other) {
            let was = key_index(chain, other);
            let now = if was < at { was } else { was - 1 };
            assert(after[now] == chain[was]);
            assert(has_key(after, other));
            let found = key_index(after, other);
            if found != now {
                if found < now {
                    assert(after[found].0 != after[now].0);
                } else {
                    assert(after[now].0 != after[found].0);
                }
            }
        }
        if has_key(after, other) {
            let now = key_index(after, other);
            let was = if now < at { now } else { now + 1 };
            assert(after[now] == chain[was]);
            assert(has_key(chain, other));
        }
    }
}

proof fn lemma_removed_is_filter(chain: Seq<(usize, u64)>, key: usize)
    requires
        distinct_keys(chain),
    ensures
        removed(chain, key) == chain.filter(|entry: (usize, u64)| entry.0 != key),
    decreases chain.len(),
{
    let keep = |entry: (usize, u64)| entry.0 != key;
    reveal(Seq::filter);
    if chain.len() > 0 {
        let front = chain.drop_last();
        let newest = chain.last();
        assert forall|i: int, j: int| 0 <= i < j < front.len() implies front[i].0
            != front[j].0 by {
            assert(front[i] == chain[i]);
            assert(front[j] == chain[j]);
        }
        lemma_removed_is_filter(front, key);
        if newest.0 == key {
            let at = chain.len() - 1;
            assert(chain[at].0 == key);
            assert(key_index(chain, key) == at);
            if has_key(front, key) {
                let dup = key_index(front, key);
                assert(chain[dup].0 == key);
                assert(false);
            }
            assert(chain.remove(at) =~= front);
        } else if has_key(front, key) {
            let at = key_index(front, key);
            assert(chain[at].0 == key);
            assert(key_index(chain, key) == at);
            assert(chain.remove(at) =~= front.remove(at).push(newest));
        } else {
            if has_key(chain, key) {
                let at = key_index(chain, key);
                assert(front[at].0 == key);
                assert(false);
            }
            assert(front.push(newest) =~= chain);
        }
    }
}

/// Persist semantics. A registration whose key no later change names is
/// never removed: whatever else is registered or released, the key keeps
/// its handler and a dispatch keeps reaching it.
pub proof fn lemma_persisted_handler_stays(chain: Seq<(usize, u64)>, key: usize, ops: Seq<ChainOp>)
    requires
        distinct_keys(chain),
        has_key(chain, key),
        forall|i: int| 0 <= i < ops.len() ==> ops[i].key() != key,
    ensures
        distinct_keys(applied(chain, ops)),
        has_key(applied(chain, ops), key),
        handler_of(applied(chain, ops), key) == handler_of(chain, key),
        call_order(applied(chain, ops)).contains((key, handler_of(chain, key).unwrap())),
    decreases ops.len(),
{
    if ops.len() > 0 {
        let front = ops.drop_last();
        assert forall|i: int| 0 <= i < front.len() implies front[i].key() != key by {
            assert(front[i] == ops[i]);
        }
        lemma_persisted_handler_stays(chain, key, front);
        let before = applied(chain, front);
        match ops.last() {
            ChainOp::Insert(other, handler) => {
                lemma_inserted_distinct(before, other, handler);
                lemma_inserted_keeps(before, other, handler, key);
            },
            ChainOp::Remove(other) => {
                lemma_removed_distinct(before, other);
                lemma_removed_keeps(before, other, key);
            },
        }
    }
    let after = applied(chain, ops);
    let at = key_index(after, key);
    let order = call_order(after);
    assert(order[after.len() - 1 - at] == after[at]);
}

/// Registering under one key leaves the registration of another key as
/// it is.
pub proof fn lemma_inserted_keeps(
    chain: Seq<(usize, u64)>,
    key: usize,
    handler: u64,
    other: usize,
)
    requires
        distinct_keys(chain),
        other != key,
    ensures
        has_key(inserted(chain, key, handler), other) == has_key(chain, other),
        handler_of(inserted(chain, key, handler), other) == handler_of(chain, other),
{
    lemma_inserted_distinct(chain, key, handler);
    let after = inserted(chain, key, handler);
    if has_key(chain, other) {
        let was = key_index(chain, other);
        assert(after[was] == chain[was]);
        assert(has_key(after, other));
        let found = key_index(after, other);
        if found != was {
            if found < was {
                assert(after[found].0 != after[was].0);
            } else {
                assert(after[was].0 != after[found].0);
            }
        }
    }
    if has_key(after, other) {
        let now = key_index(after, other);
        assert(now < chain.len());
        assert(after[now] == chain[now]);
        assert(has_key(chain, other));
    }
}

/// The sentinel is always present and always the last handler reached:
/// while nothing releases the sentinel key, a linked chain stays linked.
pub proof fn lemma_sentinel_stays_last(chain: Seq<(usize, u64)>, ops: Seq<ChainOp>)
    requires
        distinct_keys(chain),
        linked(chain),
        forall|i: int| 0 <= i < ops.len() ==> ops[i] != ChainOp::Remove(SENTINEL_KEY),
    ensures
        distinct_keys(applied(chain, ops)),
        linked(applied(chain, ops)),
        call_order(applied(chain, ops)).last().0 == SENTINEL_KEY,
    decreases ops.len(),
{
    if ops.len() > 0 {
        let front = ops.drop_last();
        assert forall|i: int| 0 <= i < front.len() implies front[i] != ChainOp::Remove(
            SENTINEL_KEY,
        ) by {
            assert(front[i] == ops[i]);
        }
        lemma_sentinel_stays_last(chain, front);
        let before = applied(chain, front);
        match ops.last() {
            ChainOp::Insert(key, handler) => {
                lemma_inserted_distinct(before, key, handler);
                if has_key(before, key) {
                    let at = key_index(before, key);
                    if at == 0 {
                        assert(key == SENTINEL_KEY);
                    }
                }
            },
            ChainOp::Remove(key) => {
                lemma_removed_distinct(before, key);
                assert(key != SENTINEL_KEY);
                if has_key(before, key) {
                    let at = key_index(before, key);
                    assert(at != 0);
                    assert(before.remove(at)[0] == before[0]);
                }
            },
        }
    }
}

/// Why a handler was not registered.
#[derive(PartialEq, Eq, Copy, Clone, Debug, Structural)]
pub enum HookError {
    /// The key already stands for a handler of the chain. The sentinel
    /// key is always in use.
    KeyInUse(usize),
}

impl HookRegistry {
    /// A chain that is linked to the original function: `original`, the
    /// handler that calls it, is registered under the sentinel key before
    /// any other handler can be.
    pub fn link(original: u64) -> (registry: HookRegistry)
        ensures
            registry.wf(),
            registry@ == seq![(SENTINEL_KEY, original)],
            linked(registry@),
    {
        let mut registry = HookRegistry::new();
        let _ = registry.insert(SENTINEL_KEY, original);
        proof {
            assert(!has_key(Seq::<(usize, u64)>::empty(), SENTINEL_KEY));
            assert(registry@ =~= seq![(SENTINEL_KEY, original)]);
        }
        registry
    }

    /// Registers `handler` under a key that is not in use: the handler
    /// goes last in the order and so is the first that a dispatch
    /// reaches. A key that is in use is refused and the chain stays as it
    /// is.
    pub fn register(&mut self, key: usize, handler: u64) -> (registered: Result<(), HookError>)
        requires
            old(self).wf(),
        ensures
            final(self).wf(),
            has_key(old(self)@, key) ==> registered == Err::<(), HookError>(
                HookError::KeyInUse(key),
            ) && final(self)@ == old(self)@,
            !has_key(old(self)@, key) ==> registered.is_ok() && final(self)@ == old(self)@.push(
                (key, handler),
            ),
            linked(old(self)@) ==> linked(final(self)@),
    {
        if self.contains_key(key) {
            return Err(HookError::KeyInUse(key));
        }
        let _ = self.insert(key, handler);
        Ok(())
    }

    /// Releases the registration under `key`, unless `key` is the
    /// sentinel key: the sentinel stays for as long as the chain does.
    pub fn release(&mut self, key: usize)
        requires
            old(self).wf(),
        ensures
            final(self).wf(),
            final(self)@ == if key == SENTINEL_KEY {
                old(self)@
            } else {
                removed(old(self)@, key)
            },
            linked(old(self)@) ==> linked(final(self)@),
    {
        if key != SENTINEL_KEY {
            let _ = self.remove(key);
            proof {
                let chain = old(self)@;
                if linked(chain) && has_key(chain, key) {
                    let at = key_index(chain, key);
                    assert(chain.remove(at)[0] == chain[0]);
                }
            }
        }
    }
}

} // verus!
