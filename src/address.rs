use vstd::prelude::*;

verus! {

/// An address family.
#[derive(Clone, Copy, Debug, PartialEq, Eq, Structural)]
pub enum Family {
    V4,
    V6,
}

/// An IP address: IPv4 as its 32 bits, IPv6 as its 128 bits, most significant first.
#[derive(Clone, Copy, Debug, PartialEq, Eq, Structural)]
pub enum IpAddress {
    V4(u32),
    V6(u128),
}

/// An IP address with a port.
#[derive(Clone, Copy, Debug, PartialEq, Eq, Structural)]
pub struct SocketAddress {
    pub ip: IpAddress,
    pub port: u16,
}

pub open spec fn family_of(ip: IpAddress) -> Family {
    match ip {
        IpAddress::V4(_) => Family::V4,
        IpAddress::V6(_) => Family::V6,
    }
}

/// The unspecified address (all zero bits) of a family.
pub open spec fn unspecified_of(family: Family) -> IpAddress {
    match family {
        Family::V4 => IpAddress::V4(0),
        Family::V6 => IpAddress::V6(0),
    }
}

impl IpAddress {
    pub fn family(&self) -> (r: Family)
        ensures
            r == family_of(*self),
    {
        match self {
            IpAddress::V4(_) => Family::V4,
            IpAddress::V6(_) => Family::V6,
        }
    }
}

impl Family {
    /// The unspecified address of this family, for binding to no particular interface.
    pub fn unspecified(&self) -> (r: IpAddress)
        ensures
            r == unspecified_of(*self),
            family_of(r) == *self,
    {
        match self {
            Family::V4 => IpAddress::V4(0),
            Family::V6 => IpAddress::V6(0),
        }
    }
}

} // verus!
