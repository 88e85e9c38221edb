//! Entities of the entity-component system: a thin identifier wrapper.

use vstd::prelude::*;

verus! {

/// An entity is identified by a string id; components attach to it elsewhere.
pub struct Entity {
    id: String,
}

impl View for Entity {
    type V = Seq<char>;

    closed spec fn view(&self) -> Seq<char> {
        self.id@
    }
}

impl Entity {
    pub fn new(id: String) -> (e: Entity)
        ensures
            e@ == id@,
    {
        Entity { id }
    }

    pub fn get_id(&self) -> (id: &String)
        ensures
            id@ == self@,
    {
        &self.id
    }
}

} // verus!
