//! Managed state: a registry that holds at most one value under each key, and
//! never replaces a value once it is stored.
//!
//! A key stands for the type of the stored value; the registry itself only
//! compares keys. Readers get a [`State`], a read-only view of the stored
//! value.

use std::collections::HashMap;
use std::ops::Deref;
use vstd::prelude::*;
use vstd::std_specs::cmp::{PartialEqSpec, PartialEqSpecImpl};

verus! {

/// A read-only view of a value held by a [`StateManager`].
#[derive(Debug)]
pub struct State<'s, T>(&'s T);

impl<'s, T> State<'s, T> {
    /// The value that is viewed.
    pub closed spec fn view(&self) -> T {
        *self.0
    }

    /// The value that is viewed.
    pub fn inner(&self) -> (value: &T)
        ensures
            *value == self@,
    {
        self.0
    }
}

impl<T> Deref for State<'_, T> {
    type Target = T;

    fn deref(&self) -> (value: &T)
        ensures
            *value == self@,
    {
        self.0
    }
}

impl<T> Clone for State<'_, T> {
    /// Another view of the same value.
    fn clone(&self) -> (copy: Self)
        ensures
            copy@ == self@,
    {
        State(self.0)
    }
}

impl<T: PartialEq> PartialEq for State<'_, T> {
    /// Two views are equal when the values that they view are.
    fn eq(&self, other: &Self) -> (equal: bool) {
        self.0 == other.0
    }
}

impl<T: PartialEq> PartialEqSpecImpl for State<'_, T> {
    open spec fn obeys_eq_spec() -> bool {
        T::obeys_eq_spec()
    }

    open spec fn eq_spec(&self, other: &Self) -> bool {
        self@.eq_spec(&other@)
    }
}

/// Whether a registry that holds `held` takes a value under `key`.
pub open spec fn accepts<V>(held: Map<u64, V>, key: u64) -> bool {
    !held.contains_key(key)
}

/// What a registry that held `held` holds after it was offered `value` under
/// `key`: the value is added where the key was free, and dropped otherwise.
pub open spec fn after_set<V>(held: Map<u64, V>, key: u64, value: V) -> Map<u64, V> {
    if accepts(held, key) {
        held.insert(key, value)
    } else {
        held
    }
}

/// What a registry that held `held` holds after it was offered each of
/// `offers`, a key and a value, in order.
pub open spec fn after_offers<V>(held: Map<u64, V>, offers: Seq<(u64, V)>) -> Map<u64, V>
    decreases offers.len(),
{
    if offers.len() == 0 {
        held
    } else {
        after_set(after_offers(held, offers.drop_last()), offers.last().0, offers.last().1)
    }
}

/// The registry: one value at most under each key.
pub struct StateManager<V> {
    map: HashMap<u64, V>,
}

impl<V> StateManager<V> {
    /// The values held, by key.
    pub closed spec fn view(&self) -> Map<u64, V> {
        self.map@
    }

    /// A registry that holds nothing.
    pub fn new() -> (manager: Self)
        ensures
            manager@ == Map::<u64, V>::empty(),
    {
        StateManager { map: HashMap::new() }
    }

    /// A registry that holds what `initial` holds.
    pub(crate) fn seeded(initial: HashMap<u64, V>) -> (manager: Self)
        ensures
            manager@ == initial@,
    {
        StateManager { map: initial }
    }

    /// Stores `state` under `key` if, and only if, nothing is stored under
    /// that key, and returns whether it did. A value that is held is never
    /// replaced.
    pub fn set(&mut self, key: u64, state: V) -> (inserted: bool)
        ensures
            inserted == accepts(old(self)@, key),
            final(self)@ == after_set(old(self)@, key, state),
    {
        broadcast use vstd::std_specs::hash::group_hash_axioms;

        if self.map.contains_key(&key) {
            return false;
        }
        self.map.insert(key, state);
        true
    }

    /// Whether a value is held under `key`.
    pub fn contains(&self, key: u64) -> (held: bool)
        ensures
            held == self@.contains_key(key),
    {
        broadcast use vstd::std_specs::hash::group_hash_axioms;

        self.map.contains_key(&key)
    }

    /// A view of the value held under `key`.
    pub fn get(&self, key: u64) -> (state: State<'_, V>)
        requires
            self@.contains_key(key),
        ensures
            state@ == self@[key],
    {
        broadcast use vstd::std_specs::hash::group_hash_axioms;

        match self.map.get(&key) {
            Some(value) => State(value),
            None => vstd::pervasive::unreached(),
        }
    }

    /// A view of the value held under `key`, or `None` where nothing is held
    /// under it.
    pub fn try_get(&self, key: u64) -> (state: Option<State<'_, V>>)
        ensures
            state is Some <==> self@.contains_key(key),
            state matches Some(found) ==> found@ == self@[key],
    {
        broadcast use vstd::std_specs::hash::group_hash_axioms;

        match self.map.get(&key) {
            Some(value) => Some(State(value)),
            None => None,
        }
    }
}

/// A value that is held stays as it is, whatever is offered afterwards.
pub proof fn lemma_held_value_stays<V>(held: Map<u64, V>, offers: Seq<(u64, V)>, key: u64)
    requires
        held.contains_key(key),
    ensures
        after_offers(held, offers).contains_key(key),
        after_offers(held, offers)[key] == held[key],
    decreases offers.len(),
{
    if offers.len() > 0 {
        lemma_held_value_stays(held, offers.drop_last(), key);
    }
}

/// The first value offered under a key is taken, every later offer under
/// that key is refused, and the key keeps that first value whatever is
/// offered afterwards, under this key or another.
pub proof fn lemma_first_write_wins<V>(
    held: Map<u64, V>,
    key: u64,
    value: V,
    later: Seq<(u64, V)>,
)
    requires
        accepts(held, key),
    ensures
        after_offers(after_set(held, key, value), later).contains_key(key),
        after_offers(after_set(held, key, value), later)[key] == value,
        !accepts(after_offers(after_set(held, key, value), later), key),
{
    lemma_held_value_stays(after_set(held, key, value), later, key);
}

/// Nothing is held under a key under which nothing was offered.
pub proof fn lemma_absent_until_offered<V>(held: Map<u64, V>, offers: Seq<(u64, V)>, key: u64)
    requires
        !held.contains_key(key),
        forall|i: int| 0 <= i < offers.len() ==> (#[trigger] offers[i]).0 != key,
    ensures
        !after_offers(held, offers).contains_key(key),
    decreases offers.len(),
{
    if offers.len() > 0 {
        let before = offers.drop_last();
        assert forall|i: int| 0 <= i < before.len() implies (#[trigger] before[i]).0 != key by {
            assert(before[i] == offers[i]);
        }
        lemma_absent_until_offered(held, before, key);
        assert(offers[offers.len() - 1].0 != key);
    }
}

/// Of two offers under one free key, the one made first is taken and the
/// other is refused, whichever of the two values comes first.
pub proof fn lemma_single_writer_wins<V>(held: Map<u64, V>, key: u64, first: V, second: V)
    requires
        accepts(held, key),
    ensures
        !accepts(after_set(held, key, first), key),
        after_set(after_set(held, key, first), key, second) == held.insert(key, first),
{
}

/// The place in `offers` of the first offer under `key`, or the length of
/// `offers` where there is none.
pub open spec fn first_offer<V>(offers: Seq<(u64, V)>, key: u64) -> int
    decreases offers.len(),
{
    if offers.len() == 0 {
        0
    } else {
        let earlier = first_offer(offers.drop_last(), key);
        if earlier < offers.len() - 1 {
            earlier
        } else if offers.last().0 == key {
            offers.len() - 1
        } else {
            offers.len() as int
        }
    }
}

/// Whether the offer at place `i` of `offers` is taken by a registry that
/// held `held` before the first of them.
pub open spec fn taken<V>(held: Map<u64, V>, offers: Seq<(u64, V)>, i: int) -> bool {
    accepts(after_offers(held, offers.take(i)), offers[i].0)
}

/// However the offers of several writers are interleaved, exactly one offer
/// under a free key is taken: the first. The key then holds the value of
/// that offer.
pub proof fn lemma_first_offer_wins<V>(held: Map<u64, V>, offers: Seq<(u64, V)>, key: u64)
    requires
        accepts(held, key),
    ensures
        0 <= first_offer(offers, key) <= offers.len(),
        forall|i: int|
            0 <= i < offers.len() && (#[trigger] offers[i]).0 == key ==> (taken(held, offers, i)
                <==> i == first_offer(offers, key)),
        first_offer(offers, key) < offers.len() ==> offers[first_offer(offers, key)].0 == key
            && after_offers(held, offers).contains_key(key) && after_offers(held, offers)[key]
            == offers[first_offer(offers, key)].1,
        first_offer(offers, key) == offers.len() ==> !after_offers(held, offers).contains_key(
            key,
        ),
    decreases offers.len(),
{
    if offers.len() > 0 {
        let before = offers.drop_last();
        let n = before.len() as int;
        lemma_first_offer_wins(held, before, key);
        assert(offers.take(n) == before);
        assert forall|i: int| 0 <= i < offers.len() && (#[trigger] offers[i]).0 == key implies (
        taken(held, offers, i) <==> i == first_offer(offers, key)) by {
            if i < n {
                assert(offers.take(i) == before.take(i));
                assert(offers[i] == before[i]);
                assert(taken(held, before, i) == taken(held, offers, i));
            }
        }
    }
}

} // verus!
