//! A store of singleton values, one per type identity.
//!
//! The store is generic over the value type `V`, the sum of every resource
//! type that an application registers. Each value reports the identity of
//! its own type through [`Resource`]; [`Holds`] connects one concrete type
//! `T` to the sum, so that a lookup hands out a `T` only after the stored
//! value has been checked to be one.
//!
//! The traits of this library state in `spec` and `proof` items what an
//! implementation has to fulfil. An implementation in verified code is
//! held to them. One in ordinary code writes these items as ordinary
//! functions, which are never called, and is trusted to behave as the
//! contracts say.
use std::collections::hash_map::RandomState;
use std::collections::HashMap;
use std::hash::Hash;
use vstd::prelude::*;
use vstd::std_specs::hash::*;

verus! {

broadcast use vstd::std_specs::hash::group_hash_axioms;

/// A value that can live in a [`Registry`].
pub trait Resource: Sized {
    /// The identity of the type that this value belongs to.
    spec fn type_key(&self) -> u64;

    /// Computes [`Resource::type_key`].
    fn key(&self) -> (k: u64)
        ensures
            k == self.type_key(),
    ;
}

/// The sum type `Self` has a variant that holds exactly a `T`.
pub trait Holds<T>: Resource {
    /// The identity under which values of type `T` are stored.
    spec fn key_of() -> u64;

    /// The stored form of `t`.
    spec fn wrapped(t: T) -> Self;

    /// The `T` inside a value whose key is [`Holds::key_of`].
    spec fn held(&self) -> T;

    /// The stored form of a `T` carries the identity of `T` and holds
    /// that `T`.
    proof fn wrapped_is_held(t: T)
        ensures
            Self::wrapped(t).type_key() == Self::key_of(),
            Self::wrapped(t).held() == t,
    ;

    /// Computes [`Holds::key_of`].
    fn slot_key() -> (k: u64)
        ensures
            k == Self::key_of(),
    ;

    /// Stores `t` in the sum. The result carries the key of `T` and gives
    /// `t` back unchanged.
    fn wrap(t: T) -> (v: Self)
        ensures
            v == Self::wrapped(t),
            v.type_key() == Self::key_of(),
            v.held() == t,
    ;

    /// Reads the `T` inside `self`, after checking that `self` holds one.
    fn peek(&self) -> (r: Option<&T>)
        ensures
            r.is_some() <==> self.type_key() == Self::key_of(),
            r matches Some(t) ==> *t == self.held() && *self == Self::wrapped(*t),
    ;

    /// Borrows the `T` inside `self` mutably, after checking that `self`
    /// holds one. Whatever is written through the borrow, `self` stays a
    /// stored `T`.
    fn peek_mut(&mut self) -> (r: Option<&mut T>)
        ensures
            r.is_some() <==> old(self).type_key() == Self::key_of(),
            match r {
                Some(t) => *t == old(self).held() && *old(self) == Self::wrapped(*t) && *final(self)
                    == Self::wrapped(*final(t)) && final(self).type_key() == Self::key_of()
                    && final(self).held() == *final(t),
                None => *final(self) == *old(self),
            },
    ;
}

/// `HashMap::get_mut`: a mutable borrow of the value under `key`, if the
/// map has one. Writing through the borrow changes that value and no
/// other; without a value the map is as it was.
#[verifier::external_body]
pub(crate) fn value_mut<'a, K: Eq + Hash, T>(map: &'a mut HashMap<K, T>, key: &K) -> (r: Option<
    &'a mut T,
>)
    ensures
        obeys_key_model::<K>() && builds_valid_hashers::<RandomState>() ==> match r {
            Some(value) => {
                &&& old(map)@.contains_key(*key)
                &&& *value == old(map)@[*key]
                &&& final(map)@ == old(map)@.insert(*key, *final(value))
            },
            None => !old(map)@.contains_key(*key) && *final(map) == *old(map),
        },
{
    map.get_mut(key)
}

/// A mapping from type identity to the single live value of that type.
pub struct Registry<V: Resource> {
    slots: HashMap<u64, V>,
}

impl<V: Resource> Registry<V> {
    /// Each value is stored under the identity of its own type.
    pub closed spec fn wf(&self) -> bool {
        forall|k: u64| self.slots@.contains_key(k) ==> (#[trigger] self.slots@[k]).type_key() == k
    }

    /// The stored values as a map from type identity to value.
    pub closed spec fn view(&self) -> Map<u64, V> {
        self.slots@
    }

    /// An empty registry.
    pub fn new() -> (r: Self)
        ensures
            r.wf(),
            r@ == Map::<u64, V>::empty(),
    {
        Registry { slots: HashMap::new() }
    }

    /// Whether a value with identity `k` is stored.
    pub fn has(&self, k: u64) -> (r: bool)
        requires
            self.wf(),
        ensures
            r == self@.contains_key(k),
    {
        self.slots.contains_key(&k)
    }

    /// Stores `v` under its own type identity, replacing the value that was
    /// stored under that identity, if there was one.
    pub fn add(&mut self, v: V)
        requires
            old(self).wf(),
        ensures
            final(self).wf(),
            final(self)@ == old(self)@.insert(v.type_key(), v),
    {
        let k: u64 = v.key();
        self.slots.insert(k, v);
    }

    /// The value stored under identity `k`, if there is one.
    pub fn get(&self, k: u64) -> (r: Option<&V>)
        requires
            self.wf(),
        ensures
            r.is_some() == self@.contains_key(k),
            r matches Some(v) ==> *v == self@[k] && v.type_key() == k,
    {
        self.slots.get(&k)
    }

    /// The stored value of type `T`, if there is one.
    pub fn get_as<T>(&self) -> (r: Option<&T>) where V: Holds<T>
        requires
            self.wf(),
        ensures
            r.is_some() == self@.contains_key(<V as Holds<T>>::key_of()),
            r matches Some(t) ==> *t == self@[<V as Holds<T>>::key_of()].held() && self@[<V as Holds<
                T,
            >>::key_of()] == <V as Holds<T>>::wrapped(*t),
    {
        let k: u64 = <V as Holds<T>>::slot_key();
        match self.slots.get(&k) {
            Some(slot) => slot.peek(),
            None => None,
        }
    }

    /// A mutable borrow of the stored value of type `T`, if there is one.
    /// Writing through the borrow replaces the stored `T` and nothing else.
    pub fn get_mut_as<T>(&mut self) -> (r: Option<&mut T>) where V: Holds<T>
        requires
            old(self).wf(),
        ensures
            final(self).wf(),
            r.is_some() == old(self)@.contains_key(<V as Holds<T>>::key_of()),
            match r {
                Some(t) => {
                    &&& *t == old(self)@[<V as Holds<T>>::key_of()].held()
                    &&& old(self)@[<V as Holds<T>>::key_of()] == <V as Holds<T>>::wrapped(*t)
                    &&& final(self)@ == old(self)@.insert(
                        <V as Holds<T>>::key_of(),
                        <V as Holds<T>>::wrapped(*final(t)),
                    )
                    &&& <V as Holds<T>>::wrapped(*final(t)).held() == *final(t)
                },
                None => final(self)@ == old(self)@,
            },
    {
        let k: u64 = <V as Holds<T>>::slot_key();
        match value_mut(&mut self.slots, &k) {
            Some(slot) => slot.peek_mut(),
            None => None,
        }
    }
}

/// A resource that was added is the one that is found: in a registry to
/// which `resource` was added as the resource of type `T`, a lookup of
/// the type `T` finds a value, and that value is `resource`.
pub proof fn lemma_added_resource_is_found<V: Holds<T>, T>(before: Map<u64, V>, resource: T)
    ensures
        before.insert(
            <V as Holds<T>>::key_of(),
            <V as Holds<T>>::wrapped(resource),
        ).contains_key(<V as Holds<T>>::key_of()),
        before.insert(<V as Holds<T>>::key_of(), <V as Holds<T>>::wrapped(resource))[<V as Holds<
            T,
        >>::key_of()].held() == resource,
{
    <V as Holds<T>>::wrapped_is_held(resource);
}

/// A resource stays as it is until a resource of its own type is added:
/// adding a resource under another identity changes neither whether a
/// resource is stored under `key` nor which one.
pub proof fn lemma_other_resources_stay<V>(before: Map<u64, V>, key: u64, other: u64, added: V)
    requires
        key != other,
    ensures
        before.insert(other, added).contains_key(key) == before.contains_key(key),
        before.contains_key(key) ==> before.insert(other, added)[key] == before[key],
{
}

} // verus!
