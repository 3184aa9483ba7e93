//! Generational handles that name objects owned by the engine.
use vstd::prelude::*;

verus! {

/// A reference to an object that lives in an engine-side pool: the slot index
/// and the generation of the slot at the time the object was put there.
/// The handle with index 0 and generation 0 refers to nothing.
#[derive(Clone, Copy, Debug, PartialEq, Eq, Structural)]
pub struct Handle {
    pub index: u32,
    pub generation: u32,
}

impl Handle {
    pub open spec fn spec_is_none(self) -> bool {
        self.index == 0 && self.generation == 0
    }

    /// The handle that refers to nothing.
    pub fn none() -> (r: Handle)
        ensures
            r.spec_is_none(),
            r.index == 0,
            r.generation == 0,
    {
        Handle { index: 0, generation: 0 }
    }

    pub fn new(index: u32, generation: u32) -> (r: Handle)
        ensures
            r.index == index,
            r.generation == generation,
    {
        Handle { index, generation }
    }

    pub fn is_none(&self) -> (r: bool)
        ensures
            r == self.spec_is_none(),
    {
        self.index == 0 && self.generation == 0
    }

    pub fn is_some(&self) -> (r: bool)
        ensures
            r == !self.spec_is_none(),
    {
        !self.is_none()
    }
}

} // verus!
