//! Plain-value models of IP addresses, socket addresses and CIDR prefixes.

use vstd::prelude::*;
use vstd::arithmetic::power2::{pow2, lemma_pow2_strictly_increases};

verus! {

/// An IP address held as its numeric value: 32 bits for IPv4, 128 for IPv6.
#[derive(Clone, Copy, PartialEq, Eq, Structural, Debug)]
pub enum IpAddress {
    V4(u32),
    V6(u128),
}

/// A socket address: an IP address together with a UDP port.
#[derive(Clone, Copy, PartialEq, Eq, Structural, Debug)]
pub struct SockAddr {
    pub ip: IpAddress,
    pub port: u16,
}

/// A CIDR prefix: a base address and a prefix length. An address is inside
/// the prefix when its topmost `prefix` bits equal those of the base.
#[derive(Clone, Copy, PartialEq, Eq, Structural, Debug)]
pub enum Cidr {
    V4 { base: u32, prefix: u8 },
    V6 { base: u128, prefix: u8 },
}

impl Cidr {
    /// A prefix length never exceeds the address width of its family.
    pub open spec fn wf(self) -> bool {
        match self {
            Cidr::V4 { base, prefix } => prefix <= 32,
            Cidr::V6 { base, prefix } => prefix <= 128,
        }
    }

    /// Number of host bits: address width minus prefix length.
    pub open spec fn host_bits(self) -> nat {
        match self {
            Cidr::V4 { base, prefix } => (32 - prefix) as nat,
            Cidr::V6 { base, prefix } => (128 - prefix) as nat,
        }
    }

    /// Number of addresses covered by the prefix.
    pub open spec fn size(self) -> nat {
        pow2(self.host_bits())
    }

    /// Whether `a` falls inside this prefix: same family, and the top
    /// `prefix` bits of the address equal those of the base.
    pub open spec fn spec_contains(self, a: IpAddress) -> bool {
        match self {
            Cidr::V4 { base, prefix } => match a {
                IpAddress::V4(x) => prefix == 0 || (base >> ((32 - prefix) as u32)) == (x
                    >> ((32 - prefix) as u32)),
                IpAddress::V6(_) => false,
            },
            Cidr::V6 { base, prefix } => match a {
                IpAddress::V4(_) => false,
                IpAddress::V6(x) => prefix == 0 || (base >> ((128 - prefix) as u128)) == (x
                    >> ((128 - prefix) as u128)),
            },
        }
    }

    /// Decides membership of `a` in this prefix.
    pub fn contains(&self, a: &IpAddress) -> (r: bool)
        requires
            self.wf(),
        ensures
            r == self.spec_contains(*a),
    {
        match self {
            Cidr::V4 { base, prefix } => match a {
                IpAddress::V4(x) => {
                    if *prefix == 0 {
                        true
                    } else {
                        let shift: u32 = (32 - *prefix) as u32;
                        (*base >> shift) == (*x >> shift)
                    }
                },
                IpAddress::V6(_) => false,
            },
            Cidr::V6 { base, prefix } => match a {
                IpAddress::V4(_) => false,
                IpAddress::V6(x) => {
                    if *prefix == 0 {
                        true
                    } else {
                        let shift: u128 = (128 - *prefix) as u128;
                        (*base >> shift) == (*x >> shift)
                    }
                },
            },
        }
    }

    /// Returns the number of host bits, the exponent of the prefix's size.
    pub fn host_bit_count(&self) -> (r: u32)
        requires
            self.wf(),
        ensures
            r as nat == self.host_bits(),
    {
        match self {
            Cidr::V4 { base, prefix } => (32 - *prefix) as u32,
            Cidr::V6 { base, prefix } => (128 - *prefix) as u32,
        }
    }
}

/// A prefix with fewer host bits covers fewer addresses, across both
/// families: the size order is exactly the host-bit order.
pub proof fn lemma_size_orders_as_host_bits(c1: Cidr, c2: Cidr)
    ensures
        c1.size() <= c2.size() <==> c1.host_bits() <= c2.host_bits(),
        c1.size() < c2.size() <==> c1.host_bits() < c2.host_bits(),
{
    if c1.host_bits() < c2.host_bits() {
        lemma_pow2_strictly_increases(c1.host_bits(), c2.host_bits());
    }
    if c2.host_bits() < c1.host_bits() {
        lemma_pow2_strictly_increases(c2.host_bits(), c1.host_bits());
    }
}

} // verus!
