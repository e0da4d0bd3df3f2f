//! The span state store: one slot per live span, holding the opaque value the
//! foreign handler returned at span creation (or no value, when the creation
//! hook was disabled or declined).
//!
//! A span is *live* exactly while its identifier is in the store's domain.
//! The slot is created at span creation, read during the span's life, and
//! removed exactly once, at span close.

use vstd::prelude::*;

use std::collections::HashMap;

verus! {

broadcast use vstd::std_specs::hash::group_hash_axioms;

/// Per-span storage keyed by span identifier. `Some` values carry the
/// foreign state attached at creation; `None` marks a live span without
/// attached state.
pub struct SpanStore<T> {
    slots: HashMap<u64, Option<T>>,
}

impl<T> View for SpanStore<T> {
    type V = Map<u64, Option<T>>;

    closed spec fn view(&self) -> Map<u64, Option<T>> {
        self.slots@
    }
}

impl<T: Copy> SpanStore<T> {
    /// An empty store: no span is live.
    pub fn new() -> (r: SpanStore<T>)
        ensures
            r@ == Map::<u64, Option<T>>::empty(),
    {
        SpanStore { slots: HashMap::new() }
    }

    /// Whether the span is live.
    pub fn is_live(&self, id: u64) -> (r: bool)
        ensures
            r == self@.contains_key(id),
    {
        self.slots.contains_key(&id)
    }

    /// The state of a live span (`None` outside: the span is not live).
    pub fn state_of(&self, id: u64) -> (r: Option<Option<T>>)
        ensures
            r == if self@.contains_key(id) {
                Some(self@[id])
            } else {
                None::<Option<T>>
            },
    {
        match self.slots.get(&id) {
            Some(st) => Some(*st),
            None => None,
        }
    }

    /// Make a span live, attaching the given state to it.
    pub fn attach(&mut self, id: u64, state: Option<T>)
        ensures
            final(self)@ == old(self)@.insert(id, state),
    {
        self.slots.insert(id, state);
    }

    /// Remove a span's slot, yielding its state: the single point of state
    /// destruction.
    pub fn detach(&mut self, id: u64) -> (r: Option<Option<T>>)
        ensures
            final(self)@ == old(self)@.remove(id),
            r == if old(self)@.contains_key(id) {
                Some(old(self)@[id])
            } else {
                None::<Option<T>>
            },
    {
        self.slots.remove(&id)
    }
}

} // verus!
