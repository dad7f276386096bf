use vstd::prelude::*;

verus! {

/// The well-known port on which servers announce themselves.
pub const DISCOVERY_PORT: u16 = 5007;

/// The IPv4 multicast group of the announcements, 224.1.1.1.
pub const DISCOVERY_GROUP_V4: u32 = 0xE001_0101;

/// The IPv6 multicast group reserved for announcements, ff02::123.
pub const DISCOVERY_GROUP_V6: u128 = 0xFF02_0000_0000_0000_0000_0000_0000_0123;

/// An IP address as it appears in a UDP envelope, in network order.
#[derive(Clone, Copy, Debug, PartialEq, Eq, Structural)]
pub enum IpAddress {
    V4(u32),
    V6(u128),
}

/// An IP address together with a port.
#[derive(Clone, Copy, Debug, PartialEq, Eq, Structural)]
pub struct Endpoint {
    pub ip: IpAddress,
    pub port: u16,
}

impl Endpoint {
    /// The endpoint at `ip` and `port`.
    pub fn new(ip: IpAddress, port: u16) -> (r: Endpoint)
        ensures
            r.ip == ip,
            r.port == port,
    {
        Endpoint { ip, port }
    }
}

/// The multicast group and port on which a worker listens for announcements.
pub fn discovery_endpoint() -> (r: Endpoint)
    ensures
        r.ip == IpAddress::V4(DISCOVERY_GROUP_V4),
        r.port == DISCOVERY_PORT,
{
    Endpoint { ip: IpAddress::V4(DISCOVERY_GROUP_V4), port: DISCOVERY_PORT }
}

/// Whether two addresses are the same.
pub fn same_ip(a: IpAddress, b: IpAddress) -> (r: bool)
    ensures
        r == (a == b),
{
    match (a, b) {
        (IpAddress::V4(x), IpAddress::V4(y)) => x == y,
        (IpAddress::V6(x), IpAddress::V6(y)) => x == y,
        _ => false,
    }
}

} // verus!
