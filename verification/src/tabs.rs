//! The arena of tab states: for one kind of tab, the state of each tab of
//! that kind, by tab id.
use std::collections::HashMap;
use vstd::prelude::*;
use crate::registry::value_mut;
use vstd::std_specs::hash::*;

verus! {

broadcast use vstd::std_specs::hash::group_hash_axioms;

/// The states of the tabs of one kind, by tab id.
pub struct TabState<T> {
    states: HashMap<usize, T>,
}

impl<T> TabState<T> {
    /// The states, as a map from tab id to state.
    pub closed spec fn view(&self) -> Map<usize, T> {
        self.states@
    }

    /// An arena without states.
    pub fn new() -> (r: Self)
        ensures
            r@ == Map::<usize, T>::empty(),
    {
        TabState { states: HashMap::new() }
    }

    /// Makes `state` the state of the tab `tab_id`, in place of the state
    /// that the tab had, if it had one. No other tab's state changes.
    pub fn insert_state(&mut self, tab_id: usize, state: T)
        ensures
            final(self)@ == old(self)@.insert(tab_id, state),
    {
        self.states.insert(tab_id, state);
    }

    /// Gives the tab `tab_id` the default state of the kind, in place of
    /// the state that the tab had, if it had one. No other tab's state
    /// changes.
    pub fn add_state(&mut self, tab_id: usize) where T: Default
        ensures
            exists|state: T| #[trigger]
                call_ensures(T::default, (), state) && final(self)@ == old(self)@.insert(
                    tab_id,
                    state,
                ),
    {
        let state = T::default();
        self.insert_state(tab_id, state);
    }

    /// The state of the tab `tab_id`, if the tab has a state of this kind.
    pub fn get_state(&self, tab_id: usize) -> (r: Option<&T>)
        ensures
            match r {
                Some(state) => self@.contains_key(tab_id) && *state == self@[tab_id],
                None => !self@.contains_key(tab_id),
            },
    {
        self.states.get(&tab_id)
    }

    /// A mutable borrow of the state of the tab `tab_id`, if the tab has a
    /// state of this kind. Writing through the borrow changes that state
    /// and no other.
    pub fn get_state_mut(&mut self, tab_id: usize) -> (r: Option<&mut T>)
        ensures
            match r {
                Some(state) => {
                    &&& old(self)@.contains_key(tab_id)
                    &&& *state == old(self)@[tab_id]
                    &&& final(self)@ == old(self)@.insert(tab_id, *final(state))
                },
                None => !old(self)@.contains_key(tab_id) && *final(self) == *old(self),
            },
    {
        value_mut(&mut self.states, &tab_id)
    }

    /// Whether the tab `tab_id` has a state of this kind.
    pub fn has_state(&self, tab_id: usize) -> (r: bool)
        ensures
            r == self@.contains_key(tab_id),
    {
        self.states.contains_key(&tab_id)
    }
}

impl<T> Default for TabState<T> {
    fn default() -> (r: Self)
        ensures
            r@ == Map::<usize, T>::empty(),
    {
        TabState::new()
    }
}

/// Two tabs of one kind have states of their own: after the states
/// `first` and `second` were given to the distinct tabs `a` and `b`, and
/// the state of `a` was then replaced by `changed`, the tab `b` still has
/// the state `second`, and `a` has `changed`.
pub proof fn lemma_tab_states_are_independent<T>(
    arena: Map<usize, T>,
    a: usize,
    b: usize,
    first: T,
    second: T,
    changed: T,
)
    requires
        a != b,
    ensures
        arena.insert(a, first).insert(b, second)[a] == first,
        arena.insert(a, first).insert(b, second)[b] == second,
        arena.insert(a, first).insert(b, second).insert(a, changed)[a] == changed,
        arena.insert(a, first).insert(b, second).insert(a, changed)[b] == second,
{
}

} // verus!
