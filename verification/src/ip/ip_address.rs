use vstd::prelude::*;
use vstd::std_specs::cmp::PartialEqSpecImpl;

use crate::ip::ipv4_address::{be_value, IPv4Address};
use crate::ip::ipv6_address::{octets_of, IPv6Address};

verus! {

/// What an `IPAddress` stands for: the bytes of an address of either kind.
pub enum IPAddressView {
    /// The four bytes of an IPv4 address.
    V4(Seq<u8>),
    /// The sixteen bytes of an IPv6 address.
    V6(Seq<u8>),
}

/// Either an IPv4 address or an IPv6 address.
#[derive(Copy, Clone, PartialOrd, Ord, Eq, Hash, Debug)]
pub enum IPAddress {
    /// An IPv4 address.
    V4(IPv4Address),
    /// An IPv6 address.
    V6(IPv6Address),
}

impl View for IPAddress {
    type V = IPAddressView;

    open spec fn view(&self) -> IPAddressView {
        match self {
            IPAddress::V4(ip) => IPAddressView::V4(ip@),
            IPAddress::V6(ip) => IPAddressView::V6(ip@),
        }
    }
}

impl PartialEq for IPAddress {
    fn eq(&self, other: &Self) -> (r: bool) {
        match (self, other) {
            (IPAddress::V4(a), IPAddress::V4(b)) => a == b,
            (IPAddress::V6(a), IPAddress::V6(b)) => a == b,
            _ => false,
        }
    }
}

impl PartialEqSpecImpl for IPAddress {
    open spec fn obeys_eq_spec() -> bool {
        true
    }

    /// Two addresses are equal where they are of one kind and their bytes are equal.
    open spec fn eq_spec(&self, other: &Self) -> bool {
        self@ == other@
    }
}

impl From<IPv4Address> for IPAddress {
    fn from(ip: IPv4Address) -> (r: Self)
        ensures
            r == IPAddress::V4(ip),
    {
        IPAddress::V4(ip)
    }
}

impl vstd::std_specs::convert::FromSpecImpl<IPv4Address> for IPAddress {
    open spec fn obeys_from_spec() -> bool {
        true
    }

    open spec fn from_spec(v: IPv4Address) -> Self {
        IPAddress::V4(v)
    }
}

impl From<[u8; 4]> for IPAddress {
    /// The address of kind `V4` that the value converts to.
    fn from(value: [u8; 4]) -> (r: Self)
        ensures
            r@ == IPAddressView::V4(value@),
    {
        IPAddress::V4(IPv4Address::from(value))
    }
}

impl vstd::std_specs::convert::FromSpecImpl<[u8; 4]> for IPAddress {
    /// The outcome is stated by the `ensures` of `from`, over views.
    open spec fn obeys_from_spec() -> bool {
        false
    }

    open spec fn from_spec(v: [u8; 4]) -> Self {
        arbitrary()
    }
}

impl From<(u8, u8, u8, u8)> for IPAddress {
    /// The address of kind `V4` that the value converts to.
    fn from(value: (u8, u8, u8, u8)) -> (r: Self)
        ensures
            r@ == IPAddressView::V4(seq![value.0, value.1, value.2, value.3]),
    {
        IPAddress::V4(IPv4Address::from(value))
    }
}

impl vstd::std_specs::convert::FromSpecImpl<(u8, u8, u8, u8)> for IPAddress {
    /// The outcome is stated by the `ensures` of `from`, over views.
    open spec fn obeys_from_spec() -> bool {
        false
    }

    open spec fn from_spec(v: (u8, u8, u8, u8)) -> Self {
        arbitrary()
    }
}

impl From<u32> for IPAddress {
    /// The address of kind `V4` that the value converts to.
    fn from(value: u32) -> (r: Self)
        ensures
            r matches IPAddress::V4(ip) && be_value(ip@) == value,
    {
        IPAddress::V4(IPv4Address::from(value))
    }
}

impl vstd::std_specs::convert::FromSpecImpl<u32> for IPAddress {
    /// The outcome is stated by the `ensures` of `from`, over views.
    open spec fn obeys_from_spec() -> bool {
        false
    }

    open spec fn from_spec(v: u32) -> Self {
        arbitrary()
    }
}

impl From<IPv6Address> for IPAddress {
    fn from(ip: IPv6Address) -> (r: Self)
        ensures
            r == IPAddress::V6(ip),
    {
        IPAddress::V6(ip)
    }
}

impl vstd::std_specs::convert::FromSpecImpl<IPv6Address> for IPAddress {
    open spec fn obeys_from_spec() -> bool {
        true
    }

    open spec fn from_spec(v: IPv6Address) -> Self {
        IPAddress::V6(v)
    }
}

impl From<[u8; 16]> for IPAddress {
    /// The address of kind `V6` that the value converts to.
    fn from(value: [u8; 16]) -> (r: Self)
        ensures
            r@ == IPAddressView::V6(value@),
    {
        IPAddress::V6(IPv6Address::from(value))
    }
}

impl vstd::std_specs::convert::FromSpecImpl<[u8; 16]> for IPAddress {
    /// The outcome is stated by the `ensures` of `from`, over views.
    open spec fn obeys_from_spec() -> bool {
        false
    }

    open spec fn from_spec(v: [u8; 16]) -> Self {
        arbitrary()
    }
}

impl From<[u16; 8]> for IPAddress {
    /// The address of kind `V6` that the value converts to.
    fn from(value: [u16; 8]) -> (r: Self)
        ensures
            r@ == IPAddressView::V6(octets_of(value@)),
    {
        IPAddress::V6(IPv6Address::from(value))
    }
}

impl vstd::std_specs::convert::FromSpecImpl<[u16; 8]> for IPAddress {
    /// The outcome is stated by the `ensures` of `from`, over views.
    open spec fn obeys_from_spec() -> bool {
        false
    }

    open spec fn from_spec(v: [u16; 8]) -> Self {
        arbitrary()
    }
}

impl From<u128> for IPAddress {
    /// The address of kind `V6` that the value converts to.
    fn from(value: u128) -> (r: Self)
        ensures
            r matches IPAddress::V6(ip) && be_value(ip@) == value,
    {
        IPAddress::V6(IPv6Address::from(value))
    }
}

impl vstd::std_specs::convert::FromSpecImpl<u128> for IPAddress {
    /// The outcome is stated by the `ensures` of `from`, over views.
    open spec fn obeys_from_spec() -> bool {
        false
    }

    open spec fn from_spec(v: u128) -> Self {
        arbitrary()
    }
}

impl IPAddressView {
    /// Whether the bytes are as many as the kind of address has.
    pub open spec fn wf(self) -> bool {
        match self {
            IPAddressView::V4(octets) => octets.len() == 4,
            IPAddressView::V6(octets) => octets.len() == 16,
        }
    }
}

impl IPAddress {
    /// An address has as many bytes as its kind has, and two addresses that
    /// stand for the same are the same address.
    pub proof fn lemma_view(self, other: Self)
        ensures
            self@.wf(),
            self@ == other@ ==> self == other,
    {
        match self {
            IPAddress::V4(ip) => {
                match other {
                    IPAddress::V4(ip2) => ip.lemma_view(ip2),
                    IPAddress::V6(_) => ip.lemma_view(ip),
                }
            },
            IPAddress::V6(ip) => {
                match other {
                    IPAddress::V4(_) => ip.lemma_view(ip),
                    IPAddress::V6(ip2) => ip.lemma_view(ip2),
                }
            },
        }
    }

    /// Checks if the address is an IPv4 address.
    pub fn is_v4(&self) -> (r: bool)
        ensures
            r == (self@ is V4),
    {
        matches!(self, IPAddress::V4(_))
    }

    /// Checks if the address is an IPv6 address.
    pub fn is_v6(&self) -> (r: bool)
        ensures
            r == (self@ is V6),
    {
        matches!(self, IPAddress::V6(_))
    }
}

} // verus!
