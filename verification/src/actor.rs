//! Actors: scene-level objects, each owning one entity.

use vstd::prelude::*;

use crate::entity::Entity;

verus! {

/// An actor wraps the entity that represents it in the component system.
pub struct Actor {
    entity: Entity,
}

impl View for Actor {
    type V = Seq<char>;

    closed spec fn view(&self) -> Seq<char> {
        self.entity@
    }
}

impl Actor {
    pub fn new(id: String) -> (a: Actor)
        ensures
            a@ == id@,
    {
        Actor { entity: Entity::new(id) }
    }

    pub fn get_entity(&self) -> (e: &Entity)
        ensures
            e@ == self@,
    {
        &self.entity
    }
}

} // verus!
