//! A holder for the chip-select line.

use vstd::prelude::*;

verus! {

/// The chip-select line of one chip. The library never drives the line; the
/// driver does, on the engine's word.
pub struct CsPinWrapper<CS> {
    /// The line.
    pub cs: CS,
}

impl<CS> CsPinWrapper<CS> {
    /// Wraps the line.
    pub fn new(cs: CS) -> (wrapper: Self)
        ensures
            wrapper.cs == cs,
    {
        CsPinWrapper { cs }
    }

    /// Gives the line back.
    pub fn release(self) -> (cs: CS)
        ensures
            cs == self.cs,
    {
        self.cs
    }
}

} // verus!
