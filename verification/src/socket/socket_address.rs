use vstd::prelude::*;
use vstd::std_specs::cmp::PartialEqSpecImpl;
use vstd::std_specs::convert::IntoSpec;

use crate::ip::ip_address::{IPAddress, IPAddressView};

verus! {

/// What a socket address stands for: an IP address of either kind, and a
/// port.
pub struct SocketAddressView {
    /// The address.
    pub ip: IPAddressView,
    /// The port.
    pub port: u16,
}

impl SocketAddressView {
    /// Whether the address has as many bytes as its kind has.
    pub open spec fn wf(self) -> bool {
        self.ip.wf()
    }
}

/// An IP address with an associated port.
#[derive(Copy, Clone, PartialOrd, Ord, Eq, Hash, Debug)]
pub struct SocketAddress {
    ip: IPAddress,
    port: u16,
}

impl View for SocketAddress {
    type V = SocketAddressView;

    closed spec fn view(&self) -> SocketAddressView {
        SocketAddressView { ip: self.ip@, port: self.port }
    }
}

impl PartialEq for SocketAddress {
    fn eq(&self, other: &Self) -> (r: bool) {
        self.ip == other.ip && self.port == other.port
    }
}

impl PartialEqSpecImpl for SocketAddress {
    open spec fn obeys_eq_spec() -> bool {
        true
    }

    /// Two socket addresses are equal where their addresses and their ports are.
    open spec fn eq_spec(&self, other: &Self) -> bool {
        self@ == other@
    }
}

impl SocketAddress {
    /// A socket address holds a well-formed address, and two socket
    /// addresses that stand for the same are the same.
    pub proof fn lemma_view(self, other: Self)
        ensures
            self@.wf(),
            self@ == other@ ==> self == other,
    {
        self.ip.lemma_view(other.ip);
    }

    /// Creates a new socket address.
    pub fn new(ip: IPAddress, port: u16) -> (r: Self)
        ensures
            r@ == (SocketAddressView { ip: ip@, port }),
    {
        Self { ip, port }
    }

    /// Gets the IP address.
    pub fn ip(&self) -> (r: IPAddress)
        ensures
            r@ == self@.ip,
    {
        self.ip
    }

    /// Gets the port.
    pub fn port(&self) -> (r: u16)
        ensures
            r == self@.port,
    {
        self.port
    }
}

impl<A: Into<IPAddress>> From<(A, u16)> for SocketAddress {
    /// The socket address of the address that the first part converts to,
    /// with the second part as its port.
    fn from(tuple: (A, u16)) -> (r: SocketAddress)
        ensures
            r@.port == tuple.1,
            A::obeys_into_spec() ==> r@.ip == tuple.0.into_spec()@,
    {
        SocketAddress::new(tuple.0.into(), tuple.1)
    }
}

impl<A: Into<IPAddress>> vstd::std_specs::convert::FromSpecImpl<(A, u16)> for SocketAddress {
    /// The outcome is stated by the `ensures` of `from`.
    open spec fn obeys_from_spec() -> bool {
        false
    }

    open spec fn from_spec(v: (A, u16)) -> Self {
        arbitrary()
    }
}

} // verus!
