//! IP addresses as plain bytes.

use vstd::prelude::*;

verus! {

/// An IPv4 or IPv6 address, in network byte order.
#[derive(Clone, Copy, Debug, PartialEq, Eq)]
pub enum IpAddress {
    V4([u8; 4]),
    V6([u8; 16]),
}

impl IpAddress {
    /// The bytes of the address: four for IPv4, sixteen for IPv6.
    pub open spec fn octets(self) -> Seq<u8> {
        match self {
            IpAddress::V4(bytes) => bytes@,
            IpAddress::V6(bytes) => bytes@,
        }
    }

    /// Whether the address is an IPv4 address.
    pub fn is_v4(&self) -> (v4: bool)
        ensures
            v4 == (self is V4),
            v4 == (self.octets().len() == 4),
    {
        match self {
            IpAddress::V4(_) => true,
            IpAddress::V6(_) => false,
        }
    }

    /// Whether two addresses are of the same version and have the same bytes.
    pub fn same_as(&self, other: &IpAddress) -> (same: bool)
        ensures
            same == (self.octets() == other.octets()),
    {
        assert(self.octets().len() == if self is V4 { 4nat } else { 16nat });
        assert(other.octets().len() == if other is V4 { 4nat } else { 16nat });
        match (self, other) {
            (IpAddress::V4(a), IpAddress::V4(b)) => same_bytes(a.as_slice(), b.as_slice()),
            (IpAddress::V6(a), IpAddress::V6(b)) => same_bytes(a.as_slice(), b.as_slice()),
            _ => false,
        }
    }
}

/// Whether two runs of bytes are equal.
pub fn same_bytes(a: &[u8], b: &[u8]) -> (same: bool)
    ensures
        same == (a@ == b@),
{
    if a.len() != b.len() {
        return false;
    }
    let mut i: usize = 0;
    while i < a.len()
        invariant
            a@.len() == b@.len(),
            i <= a@.len(),
            forall|k: int| 0 <= k < i ==> a@[k] == b@[k],
        decreases a@.len() - i,
    {
        if a[i] != b[i] {
            return false;
        }
        i = i + 1;
    }
    assert(a@ =~= b@);
    true
}

} // verus!
