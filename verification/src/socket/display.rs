use vstd::prelude::*;
use vstd::utf8::encode_utf8;

use crate::authority::authority::AuthorityView;
use crate::authority::display::authority_text;
use crate::host::host::HostView;
use crate::ip::display::{ipv4_text, ipv6_text};
use crate::ip::ip_address::IPAddressView;
use crate::parse::brackets::bracketed;
use crate::parse::parse_port::port_text;
use crate::socket::socket_address::{SocketAddress, SocketAddressView};
use crate::socket::socket_address_v4::{SocketAddressV4, SocketAddressV4View};
use crate::socket::socket_address_v6::{SocketAddressV6, SocketAddressV6View};
use crate::text::ascii::{as_chars, COLON};

verus! {

/// The text of an IPv4 socket address: the dotted quad, a colon, and the
/// port in decimal.
pub open spec fn socket_v4_text(socket: SocketAddressV4View) -> Seq<u8> {
    ipv4_text(socket.ip).push(COLON) + port_text(socket.port)
}

/// The text of an IPv6 socket address: the text of the address in brackets,
/// a colon, and the port in decimal.
pub open spec fn socket_v6_text(socket: SocketAddressV6View) -> Seq<u8> {
    bracketed(ipv6_text(socket.ip)).push(COLON) + port_text(socket.port)
}

/// The text of a socket address: that of the IPv4 or of the IPv6 socket
/// address that it is.
pub open spec fn socket_text(socket: SocketAddressView) -> Seq<u8> {
    match socket.ip {
        IPAddressView::V4(octets) => socket_v4_text(
            SocketAddressV4View { ip: octets, port: socket.port },
        ),
        IPAddressView::V6(octets) => socket_v6_text(
            SocketAddressV6View { ip: octets, port: socket.port },
        ),
    }
}

/// A socket address is written as the authority of its address is.
pub proof fn lemma_socket_text_authority(socket: SocketAddressView)
    ensures
        socket_text(socket) == authority_text(
            AuthorityView { host: HostView::Address(socket.ip), port: socket.port },
        ),
{
}

impl SocketAddress {
    /// The text of the socket address.
    pub fn to_string(&self) -> (r: String)
        ensures
            r@ == as_chars(socket_text(self@)),
            encode_utf8(r@) == socket_text(self@),
            self@.wf(),
    {
        proof {
            lemma_socket_text_authority(self@);
        }
        self.to_authority().to_string()
    }
}

impl SocketAddressV4 {
    /// The text of the socket address.
    pub fn to_string(&self) -> (r: String)
        ensures
            r@ == as_chars(socket_v4_text(self@)),
            encode_utf8(r@) == socket_v4_text(self@),
            self@.wf(),
    {
        proof {
            self.lemma_view(*self);
        }
        self.to_socket().to_string()
    }
}

impl SocketAddressV6 {
    /// The text of the socket address.
    pub fn to_string(&self) -> (r: String)
        ensures
            r@ == as_chars(socket_v6_text(self@)),
            encode_utf8(r@) == socket_v6_text(self@),
            self@.wf(),
    {
        proof {
            self.lemma_view(*self);
        }
        self.to_socket().to_string()
    }
}

} // verus!
