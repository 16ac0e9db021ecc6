//! Component storage: one store for each component type, indexed by entity.

use vstd::prelude::*;

verus! {

/// The handle of one game object: its index in every store. Entities are
/// created once and never destroyed, so a handle stays valid.
#[derive(Debug, Clone, Copy, PartialEq, Eq, Structural)]
pub struct Entity(pub usize);

/// The components of one type, one slot for each entity. An empty slot
/// means that the entity lacks the component.
#[derive(Debug)]
pub struct Store<T> {
    pub slots: Vec<Option<T>>,
}

/// The component of entity `i`, if the store reaches that far and the
/// entity has one.
pub open spec fn component<T>(store: Seq<Option<T>>, i: int) -> Option<T> {
    if 0 <= i < store.len() {
        store[i]
    } else {
        None
    }
}

impl<T> Store<T> {
    /// The slots, in the order of the entities.
    pub open spec fn view(&self) -> Seq<Option<T>> {
        self.slots@
    }

    /// A store without slots.
    pub fn new() -> (store: Store<T>)
        ensures
            store@ == Seq::<Option<T>>::empty(),
    {
        Store { slots: Vec::new() }
    }

    /// The number of slots: the number of entities that the store knows.
    pub fn len(&self) -> (n: usize)
        ensures
            n == self@.len(),
    {
        self.slots.len()
    }

    /// Adds the slot of a new entity and returns the entity's handle.
    pub fn attach(&mut self, value: Option<T>) -> (entity: Entity)
        ensures
            entity.0 == old(self)@.len(),
            final(self)@ == old(self)@.push(value),
    {
        let entity = Entity(self.slots.len());
        self.slots.push(value);
        entity
    }

    /// The component of `entity`, if it has one.
    pub fn get(&self, entity: Entity) -> (r: Option<&T>)
        ensures
            match r {
                Some(value) => component(self@, entity.0 as int) == Some(*value),
                None => component(self@, entity.0 as int) is None,
            },
    {
        if entity.0 < self.slots.len() {
            self.slots[entity.0].as_ref()
        } else {
            None
        }
    }

    /// True when `entity` has a component in this store.
    pub fn has(&self, entity: Entity) -> (r: bool)
        ensures
            r == (component(self@, entity.0 as int) is Some),
    {
        if entity.0 < self.slots.len() {
            self.slots[entity.0].is_some()
        } else {
            false
        }
    }
}

} // verus!
