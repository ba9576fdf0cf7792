use vstd::prelude::*;

use crate::authority::authority::{Authority, AuthorityView};
use crate::host::host::{Host, HostView};
use crate::ip::ip_address::{IPAddress, IPAddressView};
use crate::socket::socket_address::{SocketAddress, SocketAddressView};
use crate::socket::socket_address_v4::SocketAddressV4;
use crate::socket::socket_address_v6::SocketAddressV6;

verus! {

impl SocketAddressV4 {
    /// Converts the IPv4 socket address to a socket address.
    pub fn to_socket(&self) -> (r: SocketAddress)
        ensures
            r@ == (SocketAddressView { ip: IPAddressView::V4(self@.ip), port: self@.port }),
    {
        SocketAddress::new(IPAddress::V4(self.ip()), self.port())
    }
}

impl SocketAddressV6 {
    /// Converts the IPv6 socket address to a socket address.
    pub fn to_socket(&self) -> (r: SocketAddress)
        ensures
            r@ == (SocketAddressView { ip: IPAddressView::V6(self@.ip), port: self@.port }),
    {
        SocketAddress::new(IPAddress::V6(self.ip()), self.port())
    }
}

impl SocketAddress {
    /// Converts the socket address to an optional IPv4 socket address.
    pub fn to_v4(&self) -> (r: Option<SocketAddressV4>)
        ensures
            match r {
                Some(socket) => self@.ip == IPAddressView::V4(socket@.ip) && socket@.port
                    == self@.port,
                None => self@.ip is V6,
            },
    {
        if let IPAddress::V4(v4) = self.ip() {
            Some(SocketAddressV4::new(v4, self.port()))
        } else {
            None
        }
    }

    /// Converts the socket address to an optional IPv6 socket address.
    pub fn to_v6(&self) -> (r: Option<SocketAddressV6>)
        ensures
            match r {
                Some(socket) => self@.ip == IPAddressView::V6(socket@.ip) && socket@.port
                    == self@.port,
                None => self@.ip is V4,
            },
    {
        if let IPAddress::V6(v6) = self.ip() {
            Some(SocketAddressV6::new(v6, self.port()))
        } else {
            None
        }
    }

    /// Converts the socket address to an authority.
    pub fn to_authority(&self) -> (r: Authority)
        ensures
            r@ == (AuthorityView { host: HostView::Address(self@.ip), port: self@.port }),
            r@.wf(),
    {
        Authority::new(Host::Address(self.ip()), self.port())
    }
}

} // verus!
