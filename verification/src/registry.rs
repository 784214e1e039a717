//! Re-entry association: from the plain number that crosses the native
//! boundary back to the state it stands for.
//!
//! A registry hands out a slot number for each value it takes in, and a slot
//! number is never handed out twice: once its value has been removed, the
//! number stands for nothing, for good. The number is what the native handle
//! stores and what every trampoline is handed back.

use vstd::prelude::*;
use crate::app::MoosApp;

verus! {

/// An arena of values, each found again by the slot number it was given.
pub struct Registry<T> {
    slots: Vec<Option<T>>,
}

impl<T> View for Registry<T> {
    type V = Map<usize, T>;

    /// The live slots and what each holds.
    closed spec fn view(&self) -> Map<usize, T> {
        Map::new(
            |slot: usize| slot < self.slots.len() && self.slots[slot as int] is Some,
            |slot: usize| self.slots[slot as int]->0,
        )
    }
}

impl<T> Registry<T> {
    /// The number of slots handed out so far. Every live slot is below it.
    pub closed spec fn issued(&self) -> nat {
        self.slots.len() as nat
    }

    /// An empty registry.
    pub fn new() -> (registry: Registry<T>)
        ensures
            registry@ == Map::<usize, T>::empty(),
            registry.issued() == 0,
    {
        let registry = Registry { slots: Vec::new() };
        assert(registry@ =~= Map::<usize, T>::empty());
        registry
    }

    /// Takes `value` in and returns its slot: the next number, which no
    /// value has had before.
    pub fn insert(&mut self, value: T) -> (slot: usize)
        ensures
            slot == old(self).issued(),
            !old(self)@.contains_key(slot),
            final(self).issued() == old(self).issued() + 1,
            final(self)@ == old(self)@.insert(slot, value),
    {
        let slot: usize = self.slots.len();
        self.slots.push(Some(value));
        assert(self@ =~= old(self)@.insert(slot, value));
        slot
    }

    /// Takes the value of `slot` out, if the slot is live. The slot is dead
    /// from then on.
    pub fn remove(&mut self, slot: usize) -> (value: Option<T>)
        ensures
            final(self).issued() == old(self).issued(),
            final(self)@ == old(self)@.remove(slot),
            old(self)@.contains_key(slot) ==> value == Some(old(self)@[slot]),
            !old(self)@.contains_key(slot) ==> value is None,
    {
        if slot < self.slots.len() {
            let value = self.slots[slot].take();
            assert(self@ =~= old(self)@.remove(slot));
            value
        } else {
            assert(self@ =~= old(self)@.remove(slot));
            None
        }
    }

    /// Whether `slot` is live. A live slot is one that was handed out.
    pub fn contains(&self, slot: usize) -> (live: bool)
        ensures
            live == self@.contains_key(slot),
            live ==> slot < self.issued(),
    {
        slot < self.slots.len() && self.slots[slot].is_some()
    }
}

/// The value that the slot number `app` stands for, to read and to change in
/// place. The slot must be live.
pub fn get_app<T>(registry: &mut Registry<T>, app: usize) -> (state: &mut T)
    requires
        old(registry)@.contains_key(app),
    ensures
        *state == old(registry)@[app],
        final(registry)@ == old(registry)@.insert(app, *final(state)),
        final(registry).issued() == old(registry).issued(),
{
    match &mut registry.slots[app] {
        Some(state) => state,
        None => unreached(),
    }
}

/// Obtains the application state from the re-entry value handed to a
/// trampoline.
pub fn this<ToType>(registry: &mut Registry<ToType>, app_ptr: usize) -> (state: &mut ToType)
    requires
        old(registry)@.contains_key(app_ptr),
    ensures
        *state == old(registry)@[app_ptr],
        final(registry)@ == old(registry)@.insert(app_ptr, *final(state)),
        final(registry).issued() == old(registry).issued(),
{
    get_app::<ToType>(registry, app_ptr)
}

/// Obtains the handle from the slot number that an application keeps of it.
pub fn to_app(registry: &mut Registry<MoosApp>, base_ptr: usize) -> (app: &mut MoosApp)
    requires
        old(registry)@.contains_key(base_ptr),
    ensures
        *app == old(registry)@[base_ptr],
        final(registry)@ == old(registry)@.insert(base_ptr, *final(app)),
        final(registry).issued() == old(registry).issued(),
{
    get_app::<MoosApp>(registry, base_ptr)
}

} // verus!
