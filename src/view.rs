use vstd::prelude::*;

verus! {

/// The baseline view, which shows nothing and reacts to nothing.
pub struct Empty {}

impl Empty {
    /// Creates the empty view.
    pub fn new() -> (r: Empty) {
        Empty {}
    }
}

} // verus!
