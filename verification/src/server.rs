//! Where the static content server listens.

use crate::interfaces::Ipv4Address;
use vstd::prelude::*;

verus! {

/// The port on which the feed is served unless another one is asked for.
pub const DEFAULT_PORT: u16 = 8123;

/// Where a listener is bound.
#[derive(Clone, Copy, Debug, PartialEq, Eq, Hash)]
pub struct ListenAddress {
    pub address: Ipv4Address,
    pub port: u16,
}

/// The address that stands for every interface of the machine: `0.0.0.0`.
pub open spec fn every_interface() -> Seq<u8> {
    seq![0u8, 0u8, 0u8, 0u8]
}

/// The listener of the feed: every interface of the machine, at `port`.
pub fn listen_address(port: u16) -> (r: ListenAddress)
    ensures
        r.address.octets@ == every_interface(),
        r.port == port,
{
    let r = ListenAddress { address: Ipv4Address { octets: [0, 0, 0, 0] }, port };
    assert(r.address.octets@ =~= every_interface());
    r
}

} // verus!
