use vstd::prelude::*;

verus! {

/// The state of one peer session.
#[derive(Debug, Clone, Hash, PartialEq, Eq, Copy, Structural)]
pub enum State {
    Idle,
    Connect,
    OpenSent,
    OpenConfirm,
    Established,
}

} // verus!
