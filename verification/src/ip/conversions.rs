use vstd::prelude::*;

use crate::host::host::Host;
use crate::host::host_ref::HostRef;
use crate::ip::ip_address::IPAddress;
use crate::ip::ipv4_address::IPv4Address;
use crate::ip::ipv6_address::IPv6Address;
use crate::socket::socket_address::{SocketAddress, SocketAddressView};
use crate::socket::socket_address_v4::{SocketAddressV4, SocketAddressV4View};
use crate::socket::socket_address_v6::{SocketAddressV6, SocketAddressV6View};

verus! {

/// The sixteen bytes of the IPv4-compatible IPv6 address (`::a.b.c.d`) of
/// four bytes: twelve zero bytes and the four.
pub open spec fn v6_compatible(octets: Seq<u8>) -> Seq<u8> {
    Seq::new(12, |i: int| 0u8) + octets
}

/// The sixteen bytes of the IPv4-mapped IPv6 address (`::ffff:a.b.c.d`) of
/// four bytes: ten zero bytes, two of 255, and the four.
pub open spec fn v6_mapped(octets: Seq<u8>) -> Seq<u8> {
    Seq::new(10, |i: int| 0u8) + seq![255u8, 255u8] + octets
}

/// The four bytes of the IPv4 address that sixteen bytes hold, where they
/// are an IPv4-compatible or an IPv4-mapped address: their last four.
pub open spec fn v4_of(octets: Seq<u8>) -> Option<Seq<u8>> {
    if octets.take(12) == Seq::new(12, |i: int| 0u8) || octets.take(12) == Seq::new(
        10,
        |i: int| 0u8,
    ) + seq![255u8, 255u8] {
        Some(octets.skip(12))
    } else {
        None
    }
}

/// An IPv4 address is found again in both IPv6 addresses made of it.
pub proof fn lemma_v4_of(octets: Seq<u8>)
    requires
        octets.len() == 4,
    ensures
        v4_of(v6_compatible(octets)) == Some(octets),
        v4_of(v6_mapped(octets)) == Some(octets),
{
    assert(v6_compatible(octets).take(12) =~= Seq::new(12, |i: int| 0u8));
    assert(v6_compatible(octets).skip(12) =~= octets);
    assert(v6_mapped(octets).take(12) =~= Seq::new(10, |i: int| 0u8) + seq![255u8, 255u8]);
    assert(v6_mapped(octets).skip(12) =~= octets);
}

impl IPv4Address {
    /// Converts the address to an IPv6 compatible address. (::a.b.c.d)
    pub fn to_v6_compatible(&self) -> (r: IPv6Address)
        ensures
            r@ == v6_compatible(self@),
    {
        let (a, b, c, d) = self.bytes();
        let r = IPv6Address::new([0, 0, 0, 0, 0, 0, 0, 0, 0, 0, 0, 0, a, b, c, d]);
        assert(r@ =~= v6_compatible(self@));
        r
    }

    /// Converts the address to an IPv6 mapped address. (::ffff:a.b.c.d)
    pub fn to_v6_mapped(&self) -> (r: IPv6Address)
        ensures
            r@ == v6_mapped(self@),
    {
        let (a, b, c, d) = self.bytes();
        let r = IPv6Address::new([0, 0, 0, 0, 0, 0, 0, 0, 0, 0, 0xFF, 0xFF, a, b, c, d]);
        assert(r@ =~= v6_mapped(self@));
        r
    }

    /// Converts the address to an IP address.
    pub fn to_ip(&self) -> (r: IPAddress)
        ensures
            r == IPAddress::V4(*self),
    {
        IPAddress::V4(*self)
    }

    /// Converts the address to a socket address with the `port`.
    pub fn to_socket(&self, port: u16) -> (r: SocketAddressV4)
        ensures
            r@ == (SocketAddressV4View { ip: self@, port }),
    {
        SocketAddressV4::new(*self, port)
    }

    /// Converts the address to a host.
    pub fn to_host(&self) -> (r: Host)
        ensures
            r == Host::Address(IPAddress::V4(*self)),
    {
        Host::Address(self.to_ip())
    }

    /// Converts the address to a host reference.
    pub fn to_host_ref(&self) -> (r: HostRef<'static>)
        ensures
            r == HostRef::Address(IPAddress::V4(*self)),
    {
        HostRef::Address(self.to_ip())
    }
}

impl IPv6Address {
    /// Converts the address to an optional IPv4 address. Returns `None` if the address is not an
    /// IPv4 compatible address (::a.b.c.d) or an IPv4 mapped address (::ffff:a.b.c.d).
    pub fn to_v4(&self) -> (r: Option<IPv4Address>)
        ensures
            match r {
                Some(ip) => v4_of(self@) == Some(ip@),
                None => v4_of(self@) is None,
            },
    {
        let a = self.address();
        proof {
            self.lemma_view(*self);
        }
        let zeros = a[0] == 0 && a[1] == 0 && a[2] == 0 && a[3] == 0 && a[4] == 0 && a[5] == 0
            && a[6] == 0 && a[7] == 0 && a[8] == 0 && a[9] == 0;
        if zeros && ((a[10] == 0 && a[11] == 0) || (a[10] == 0xFF && a[11] == 0xFF)) {
            let ip = IPv4Address::new([a[12], a[13], a[14], a[15]]);
            proof {
                assert(ip@ =~= self@.skip(12));
                if a[10] == 0 {
                    assert(self@.take(12) =~= Seq::new(12, |i: int| 0u8));
                } else {
                    assert(self@.take(12) =~= Seq::new(10, |i: int| 0u8) + seq![255u8, 255u8]);
                }
            }
            Some(ip)
        } else {
            proof {
                let head = self@.take(12);
                let compatible = Seq::new(12, |i: int| 0u8);
                let mapped = Seq::new(10, |i: int| 0u8) + seq![255u8, 255u8];
                if head == compatible || head == mapped {
                    assert(forall|i: int| 0 <= i < 10 ==> head[i] == 0);
                    assert(head[0] == a[0] && head[1] == a[1] && head[2] == a[2] && head[3] == a[3]
                        && head[4] == a[4] && head[5] == a[5] && head[6] == a[6] && head[7] == a[7]
                        && head[8] == a[8] && head[9] == a[9] && head[10] == a[10] && head[11]
                        == a[11]);
                    assert(compatible[10] == 0 && compatible[11] == 0);
                    assert(mapped[10] == 255 && mapped[11] == 255);
                }
            }
            None
        }
    }

    /// Converts the address to an IP address.
    pub fn to_ip(&self) -> (r: IPAddress)
        ensures
            r == IPAddress::V6(*self),
    {
        IPAddress::V6(*self)
    }

    /// Converts the address to a socket address with the `port`.
    pub fn to_socket(&self, port: u16) -> (r: SocketAddressV6)
        ensures
            r@ == (SocketAddressV6View { ip: self@, port }),
    {
        SocketAddressV6::new(*self, port)
    }

    /// Converts the address to a host.
    pub fn to_host(&self) -> (r: Host)
        ensures
            r == Host::Address(IPAddress::V6(*self)),
    {
        Host::Address(self.to_ip())
    }

    /// Converts the address to a host reference.
    pub fn to_host_ref(&self) -> (r: HostRef<'static>)
        ensures
            r == HostRef::Address(IPAddress::V6(*self)),
    {
        HostRef::Address(self.to_ip())
    }
}

impl IPAddress {
    /// Converts the address to an optional IPv4 address.
    pub fn to_v4(&self) -> (r: Option<IPv4Address>)
        ensures
            match r {
                Some(ip) => *self == IPAddress::V4(ip),
                None => *self is V6,
            },
    {
        if let IPAddress::V4(ip) = self {
            Some(*ip)
        } else {
            None
        }
    }

    /// Converts the address to an optional IPv6 address.
    pub fn to_v6(&self) -> (r: Option<IPv6Address>)
        ensures
            match r {
                Some(ip) => *self == IPAddress::V6(ip),
                None => *self is V4,
            },
    {
        if let IPAddress::V6(ip) = self {
            Some(*ip)
        } else {
            None
        }
    }

    /// Converts the address to a socket address with the `port`.
    pub fn to_socket(&self, port: u16) -> (r: SocketAddress)
        ensures
            r@ == (SocketAddressView { ip: self@, port }),
    {
        SocketAddress::new(*self, port)
    }

    /// Converts the address to a host.
    pub fn to_host(&self) -> (r: Host)
        ensures
            r == Host::Address(*self),
    {
        Host::Address(*self)
    }

    /// Converts the address to a host reference.
    pub fn to_host_ref(&self) -> (r: HostRef<'static>)
        ensures
            r == HostRef::Address(*self),
    {
        HostRef::Address(*self)
    }
}

} // verus!
