//! Internet addresses, as far as group membership needs them: each address is
//! held as the integer that its octets spell in network order.

use vstd::prelude::*;

verus! {

/// An IPv4 address.
#[derive(Clone, Copy, Debug, PartialEq, Eq, Structural)]
pub struct Ipv4Address {
    pub bits: u32,
}

/// An IPv6 address.
#[derive(Clone, Copy, Debug, PartialEq, Eq, Structural)]
pub struct Ipv6Address {
    pub bits: u128,
}

/// An address of either family.
#[derive(Clone, Copy, Debug, PartialEq, Eq, Structural)]
pub enum IpAddress {
    Ipv4(Ipv4Address),
    Ipv6(Ipv6Address),
}

/// An address that can be a member of a group table: one that can be copied
/// and told apart from another of its family.
pub trait GroupAddress: Copy {
    /// Whether the two addresses are the same.
    fn same_as(&self, other: &Self) -> (same: bool)
        ensures
            same == (*self == *other),
    ;
}

impl Ipv4Address {
    /// The address `a0.a1.a2.a3`.
    pub fn new(a0: u8, a1: u8, a2: u8, a3: u8) -> (addr: Ipv4Address)
        ensures
            addr.bits == a0 * 0x100_0000 + a1 * 0x1_0000 + a2 * 0x100 + a3,
    {
        let high: u32 = a0 as u32 * 0x100_0000 + a1 as u32 * 0x1_0000;
        let low: u32 = a2 as u32 * 0x100 + a3 as u32;
        Ipv4Address { bits: high + low }
    }

    /// The address whose octets spell `bits` in network order.
    pub fn from_bits(bits: u32) -> (addr: Ipv4Address)
        ensures
            addr.bits == bits,
    {
        Ipv4Address { bits }
    }
}

impl Ipv6Address {
    /// The address whose octets spell `bits` in network order.
    pub fn from_bits(bits: u128) -> (addr: Ipv6Address)
        ensures
            addr.bits == bits,
    {
        Ipv6Address { bits }
    }

    /// Whether this is the unspecified address `::`, all of whose bits are
    /// zero.
    pub open spec fn spec_is_unspecified(&self) -> bool {
        self.bits == 0
    }

    /// Whether this is the unspecified address `::`.
    #[verifier::when_used_as_spec(spec_is_unspecified)]
    pub fn is_unspecified(&self) -> (unspecified: bool)
        ensures
            unspecified == self.spec_is_unspecified(),
    {
        self.bits == 0
    }
}

impl From<Ipv4Address> for IpAddress {
    /// `addr` as an address of either family.
    fn from(addr: Ipv4Address) -> (ip: IpAddress) {
        IpAddress::Ipv4(addr)
    }
}

impl vstd::std_specs::convert::FromSpecImpl<Ipv4Address> for IpAddress {
    open spec fn obeys_from_spec() -> bool {
        true
    }

    open spec fn from_spec(addr: Ipv4Address) -> IpAddress {
        IpAddress::Ipv4(addr)
    }
}

impl From<Ipv6Address> for IpAddress {
    /// `addr` as an address of either family.
    fn from(addr: Ipv6Address) -> (ip: IpAddress) {
        IpAddress::Ipv6(addr)
    }
}

impl vstd::std_specs::convert::FromSpecImpl<Ipv6Address> for IpAddress {
    open spec fn obeys_from_spec() -> bool {
        true
    }

    open spec fn from_spec(addr: Ipv6Address) -> IpAddress {
        IpAddress::Ipv6(addr)
    }
}

impl GroupAddress for Ipv4Address {
    fn same_as(&self, other: &Self) -> (same: bool) {
        self.bits == other.bits
    }
}

impl GroupAddress for Ipv6Address {
    fn same_as(&self, other: &Self) -> (same: bool) {
        self.bits == other.bits
    }
}

} // verus!
