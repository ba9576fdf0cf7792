use vstd::prelude::*;

use crate::ip::display::{ipv4_text, ipv6_text, lemma_ipv4_text_bytes};
use crate::ip::ip_address::IPAddressView;
use crate::ip::laws::{lemma_ipv4_round_trip, lemma_ipv6_round_trip, lemma_ipv6_text_start};
use crate::parse::brackets::{bracketed, lemma_bracketed};
use crate::parse::parse_error::ParseError;
use crate::parse::parse_port::{lemma_split_port, port_text};
use crate::socket::display::{socket_text, socket_v4_text, socket_v6_text};
use crate::socket::from_str::{parse_socket, parse_socket_v4, parse_socket_v6};
use crate::socket::socket_address::SocketAddressView;
use crate::socket::socket_address_v4::SocketAddressV4View;
use crate::socket::socket_address_v6::SocketAddressV6View;
use crate::text::ascii::{COLON, DOT};
use crate::text::number::is_dec_digit;

verus! {

/// Round trip of an IPv4 socket address: its text reads back as the socket
/// address.
pub proof fn lemma_socket_v4_round_trip(socket: SocketAddressV4View)
    requires
        socket.wf(),
    ensures
        parse_socket_v4(socket_v4_text(socket)) == Ok::<SocketAddressV4View, ParseError>(socket),
{
    lemma_split_port(ipv4_text(socket.ip), socket.port);
    lemma_ipv4_round_trip(socket.ip);
}

/// Round trip of an IPv6 socket address: its text reads back as the socket
/// address.
pub proof fn lemma_socket_v6_round_trip(socket: SocketAddressV6View)
    requires
        socket.wf(),
    ensures
        parse_socket_v6(socket_v6_text(socket)) == Ok::<SocketAddressV6View, ParseError>(socket),
{
    lemma_split_port(bracketed(ipv6_text(socket.ip)), socket.port);
    lemma_bracketed(ipv6_text(socket.ip));
    lemma_ipv6_round_trip(socket.ip);
}

/// Round trip of a socket address: its text reads back as the socket
/// address, of the same kind.
pub proof fn lemma_socket_round_trip(socket: SocketAddressView)
    requires
        socket.wf(),
    ensures
        parse_socket(socket_text(socket)) == Ok::<SocketAddressView, ParseError>(socket),
{
    match socket.ip {
        IPAddressView::V4(octets) => {
            lemma_split_port(ipv4_text(octets), socket.port);
            lemma_ipv4_round_trip(octets);
            lemma_ipv4_text_bytes(octets);
            let text = ipv4_text(octets);
            assert(is_dec_digit(text[0]) || text[0]
                == DOT);
        },
        IPAddressView::V6(octets) => {
            lemma_split_port(bracketed(ipv6_text(octets)), socket.port);
            lemma_bracketed(ipv6_text(octets));
            lemma_ipv6_round_trip(octets);
        },
    }
}

/// The text of an IPv6 address without brackets, followed by a colon and a
/// port, is no IPv6 socket address: the error is `InvalidSocketAddressV6`.
pub proof fn lemma_bare_ipv6_socket(octets: Seq<u8>, port: u16)
    requires
        octets.len() == 16,
    ensures
        parse_socket_v6(ipv6_text(octets).push(COLON) + port_text(port)) == Err::<
            SocketAddressV6View,
            ParseError,
        >(ParseError::InvalidSocketAddressV6),
{
    lemma_split_port(ipv6_text(octets), port);
    lemma_ipv6_text_start(octets);
}

} // verus!
