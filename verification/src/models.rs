//! Domain models.

use vstd::prelude::*;

verus! {

/// A basic entity model.
#[derive(Debug)]
pub struct Entity {
    /// Unique identifier.
    pub id: u64,
    /// Human-readable name.
    pub name: String,
}

impl Entity {
    /// A new entity.
    pub fn new(id: u64, name: String) -> (r: Entity)
        ensures
            r.id == id,
            r.name@ == name@,
    {
        Entity { id, name }
    }
}

impl Clone for Entity {
    fn clone(&self) -> (r: Entity)
        ensures
            r.id == self.id,
            r.name@ == self.name@,
    {
        Entity { id: self.id, name: self.name.clone() }
    }
}

} // verus!
