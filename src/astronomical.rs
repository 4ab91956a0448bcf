use vstd::prelude::*;
use crate::entity::{Entity, EntityIndex};
use crate::point::Point;

verus! {

/// Spectral class of a star.
#[derive(Clone, Copy, Debug)]
pub enum SpectralType {
    O,
    B,
    A,
    F,
    G,
    K,
    M,
}

/// Handle of a star in its arena.
#[derive(Debug)]
pub struct StarIndex(pub usize);

impl EntityIndex for StarIndex {
    open spec fn slot(&self) -> nat {
        self.0 as nat
    }

    fn from_slot(index: usize) -> (r: StarIndex) {
        StarIndex(index)
    }

    fn into_slot(self) -> (r: usize) {
        self.0
    }
}

impl From<usize> for StarIndex {
    fn from(index: usize) -> (r: StarIndex) {
        StarIndex(index)
    }
}

impl vstd::std_specs::convert::FromSpecImpl<usize> for StarIndex {
    open spec fn obeys_from_spec() -> bool {
        true
    }

    open spec fn from_spec(index: usize) -> StarIndex {
        StarIndex(index)
    }
}

impl From<StarIndex> for usize {
    fn from(index: StarIndex) -> (r: usize) {
        index.0
    }
}

impl vstd::std_specs::convert::FromSpecImpl<StarIndex> for usize {
    open spec fn obeys_from_spec() -> bool {
        true
    }

    open spec fn from_spec(index: StarIndex) -> usize {
        index.0
    }
}

/// A star system: where it lies and what it is called.
#[derive(Debug)]
pub struct System {
    pub location: Point,
    pub name: String,
}

impl Clone for System {
    /// A copy with the same location and name.
    fn clone(&self) -> (r: System)
        ensures
            r == *self,
    {
        System { location: self.location, name: self.name.clone() }
    }
}

/// Two systems are the same system when they lie at the same place.
impl PartialEq for System {
    fn eq(&self, other: &System) -> (r: bool) {
        self.location == other.location
    }
}

impl vstd::std_specs::cmp::PartialEqSpecImpl for System {
    open spec fn obeys_eq_spec() -> bool {
        true
    }

    open spec fn eq_spec(&self, other: &System) -> bool {
        self.location.same_place(&other.location)
    }
}

impl Entity for System {
    type Index = SystemIndex;
}

/// Handle of a star system in its arena.
#[derive(Debug)]
pub struct SystemIndex(pub usize);

impl EntityIndex for SystemIndex {
    open spec fn slot(&self) -> nat {
        self.0 as nat
    }

    fn from_slot(index: usize) -> (r: SystemIndex) {
        SystemIndex(index)
    }

    fn into_slot(self) -> (r: usize) {
        self.0
    }
}

impl From<usize> for SystemIndex {
    fn from(index: usize) -> (r: SystemIndex) {
        SystemIndex(index)
    }
}

impl vstd::std_specs::convert::FromSpecImpl<usize> for SystemIndex {
    open spec fn obeys_from_spec() -> bool {
        true
    }

    open spec fn from_spec(index: usize) -> SystemIndex {
        SystemIndex(index)
    }
}

impl From<SystemIndex> for usize {
    fn from(index: SystemIndex) -> (r: usize) {
        index.0
    }
}

impl vstd::std_specs::convert::FromSpecImpl<SystemIndex> for usize {
    open spec fn obeys_from_spec() -> bool {
        true
    }

    open spec fn from_spec(index: SystemIndex) -> usize {
        index.0
    }
}

/// Converting a slot number to a system handle and back gives the number
/// again, and the handle stands for that slot; so the handle `insert`
/// returns converts to the arena's length before the insertion.
pub proof fn lemma_system_index_conversions(n: usize)
    ensures
        <SystemIndex as vstd::std_specs::convert::FromSpec<usize>>::from_spec(n).slot() == n,
        <usize as vstd::std_specs::convert::FromSpec<SystemIndex>>::from_spec(
            <SystemIndex as vstd::std_specs::convert::FromSpec<usize>>::from_spec(n),
        ) == n,
{
}

} // verus!
