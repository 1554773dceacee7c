use vstd::prelude::*;

verus! {

/// Where a node is reached: an IPv4 host, as a number, and a port.
#[derive(Copy, Clone, PartialEq, Eq, Hash, Debug, Structural)]
pub struct Address {
    pub host: u32,
    pub port: u16,
}

} // verus!
