use vstd::prelude::*;

verus! {

/// The number of an autonomous system, two bytes wide on the wire.
#[derive(Debug, Clone, Copy, Hash, PartialEq, Eq, PartialOrd, Ord, Structural)]
pub struct AutonomousSystemNumber(pub u16);

impl AutonomousSystemNumber {
    pub fn new(number: u16) -> (r: Self)
        ensures
            r.0 == number,
    {
        AutonomousSystemNumber(number)
    }

    pub fn value(&self) -> (r: u16)
        ensures
            r == self.0,
    {
        self.0
    }
}

} // verus!
