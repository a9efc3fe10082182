use vstd::prelude::*;
use crate::bgp_type::AutonomousSystemNumber;

verus! {

/// What one peer session is set up with. Addresses are IPv4 addresses as
/// 32-bit numbers, first octet most significant.
#[derive(Debug, Clone, Copy, Hash, PartialEq, Eq, Structural)]
pub struct Config {
    pub local_as: AutonomousSystemNumber,
    pub local_id: u32,
    pub peer_addr: u32,
}

impl Config {
    pub fn new(local_as: AutonomousSystemNumber, local_id: u32, peer_addr: u32) -> (r: Config)
        ensures
            r == (Config { local_as, local_id, peer_addr }),
    {
        Config { local_as, local_id, peer_addr }
    }
}

} // verus!
