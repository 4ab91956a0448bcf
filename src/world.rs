use vstd::prelude::*;
use crate::astronomical::System;
use crate::entity::EntityArray;

verus! {

/// The world state: every entity, one arena per kind.
pub struct World {
    pub systems: EntityArray<System>,
}

impl World {
    /// A world without entities.
    pub fn new() -> (r: World)
        ensures
            r.systems@.len() == 0,
    {
        World { systems: EntityArray::new() }
    }
}

} // verus!
