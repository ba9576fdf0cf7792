use vstd::prelude::*;
use vstd::std_specs::cmp::PartialEqSpecImpl;
use vstd::std_specs::convert::IntoSpec;

use crate::ip::ipv4_address::IPv4Address;

verus! {

/// What an IPv4 socket address stands for: the four bytes of the address,
/// and a port.
pub struct SocketAddressV4View {
    /// The bytes of the address.
    pub ip: Seq<u8>,
    /// The port.
    pub port: u16,
}

impl SocketAddressV4View {
    /// Whether the address has four bytes.
    pub open spec fn wf(self) -> bool {
        self.ip.len() == 4
    }
}

/// An IPv4 address with an associated port.
#[derive(Copy, Clone, PartialOrd, Ord, Eq, Hash, Debug)]
pub struct SocketAddressV4 {
    ip: IPv4Address,
    port: u16,
}

impl View for SocketAddressV4 {
    type V = SocketAddressV4View;

    closed spec fn view(&self) -> SocketAddressV4View {
        SocketAddressV4View { ip: self.ip@, port: self.port }
    }
}

impl PartialEq for SocketAddressV4 {
    fn eq(&self, other: &Self) -> (r: bool) {
        self.ip == other.ip && self.port == other.port
    }
}

impl PartialEqSpecImpl for SocketAddressV4 {
    open spec fn obeys_eq_spec() -> bool {
        true
    }

    /// Two socket addresses are equal where their addresses and their ports are.
    open spec fn eq_spec(&self, other: &Self) -> bool {
        self@ == other@
    }
}

impl SocketAddressV4 {
    /// A socket address holds an address of four bytes, and two socket
    /// addresses that stand for the same are the same.
    pub proof fn lemma_view(self, other: Self)
        ensures
            self@.wf(),
            self@ == other@ ==> self == other,
    {
        self.ip.lemma_view(other.ip);
    }

    /// Creates a new IPv4 socket address.
    pub fn new(ip: IPv4Address, port: u16) -> (r: Self)
        ensures
            r@ == (SocketAddressV4View { ip: ip@, port }),
    {
        Self { ip, port }
    }

    /// Gets the IPv4 address.
    pub fn ip(&self) -> (r: IPv4Address)
        ensures
            r@ == self@.ip,
    {
        self.ip
    }

    /// Gets the port.
    pub fn port(&self) -> (r: u16)
        ensures
            r == self@.port,
    {
        self.port
    }
}

impl<A: Into<IPv4Address>> From<(A, u16)> for SocketAddressV4 {
    /// The socket address of the address that the first part converts to,
    /// with the second part as its port.
    fn from(tuple: (A, u16)) -> (r: SocketAddressV4)
        ensures
            r@.port == tuple.1,
            A::obeys_into_spec() ==> r@.ip == tuple.0.into_spec()@,
    {
        SocketAddressV4::new(tuple.0.into(), tuple.1)
    }
}

impl<A: Into<IPv4Address>> vstd::std_specs::convert::FromSpecImpl<(A, u16)> for SocketAddressV4 {
    /// The outcome is stated by the `ensures` of `from`.
    open spec fn obeys_from_spec() -> bool {
        false
    }

    open spec fn from_spec(v: (A, u16)) -> Self {
        arbitrary()
    }
}

} // verus!
