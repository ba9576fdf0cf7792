use vstd::prelude::*;
use vstd::utf8::encode_utf8;

use crate::ip::from_str::{parse_ipv4, parse_ipv6};
use crate::ip::ip_address::{IPAddress, IPAddressView};
use crate::ip::ipv4_address::IPv4Address;
use crate::ip::ipv6_address::IPv6Address;
use crate::parse::brackets::{inside_brackets, is_bracketed, strip_brackets};
use crate::parse::parse_error::ParseError;
use crate::parse::parse_port::{parse_port, split_port};
use crate::socket::socket_address::{SocketAddress, SocketAddressView};
use crate::socket::socket_address_v4::{SocketAddressV4, SocketAddressV4View};
use crate::socket::socket_address_v6::{SocketAddressV6, SocketAddressV6View};

verus! {

/// The IPv4 socket address that a text spells. The text is split at its last
/// colon; what follows must spell a port, else the error is `InvalidPort`;
/// what stands before must be a dotted quad, else it is
/// `InvalidIPv4Address`.
pub open spec fn parse_socket_v4(text: Seq<u8>) -> Result<SocketAddressV4View, ParseError> {
    match split_port(text) {
        None => Err(ParseError::InvalidPort),
        Some((prefix, port)) => match parse_ipv4(prefix) {
            None => Err(ParseError::InvalidIPv4Address),
            Some(octets) => Ok(SocketAddressV4View { ip: octets, port }),
        },
    }
}

/// The IPv6 socket address that a text spells. The text is split at its last
/// colon; what follows must spell a port, else the error is `InvalidPort`;
/// what stands before must be bracketed, else it is
/// `InvalidSocketAddressV6`, whatever it spells; and the inside of the
/// brackets must be the text of an IPv6 address, else it is
/// `InvalidIPv6Address`.
pub open spec fn parse_socket_v6(text: Seq<u8>) -> Result<SocketAddressV6View, ParseError> {
    match split_port(text) {
        None => Err(ParseError::InvalidPort),
        Some((prefix, port)) => if !is_bracketed(prefix) {
            Err(ParseError::InvalidSocketAddressV6)
        } else {
            match parse_ipv6(inside_brackets(prefix)) {
                None => Err(ParseError::InvalidIPv6Address),
                Some(octets) => Ok(SocketAddressV6View { ip: octets, port }),
            }
        },
    }
}

/// The socket address that a text spells. The text is split at its last
/// colon; what follows must spell a port, else the error is `InvalidPort`.
/// Where what stands before is bracketed, the inside must be the text of an
/// IPv6 address, else the error is `InvalidIPv6Address`; where it is not, it
/// must be a dotted quad, else the error is `InvalidIPv4Address`.
pub open spec fn parse_socket(text: Seq<u8>) -> Result<SocketAddressView, ParseError> {
    match split_port(text) {
        None => Err(ParseError::InvalidPort),
        Some((prefix, port)) => if is_bracketed(prefix) {
            match parse_ipv6(inside_brackets(prefix)) {
                None => Err(ParseError::InvalidIPv6Address),
                Some(octets) => Ok(SocketAddressView { ip: IPAddressView::V6(octets), port }),
            }
        } else {
            match parse_ipv4(prefix) {
                None => Err(ParseError::InvalidIPv4Address),
                Some(octets) => Ok(SocketAddressView { ip: IPAddressView::V4(octets), port }),
            }
        },
    }
}

impl SocketAddressV4 {
    /// Reads the text of an IPv4 socket address.
    pub(crate) fn from_text(text: &[u8]) -> (r: Result<Self, ParseError>)
        ensures
            match r {
                Ok(socket) => parse_socket_v4(text@) == Ok::<SocketAddressV4View, ParseError>(
                    socket@,
                ),
                Err(e) => parse_socket_v4(text@) == Err::<SocketAddressV4View, ParseError>(e),
            },
    {
        match parse_port(text) {
            Err(e) => Err(e),
            Ok((prefix, port)) => match IPv4Address::from_text(prefix) {
                None => Err(ParseError::InvalidIPv4Address),
                Some(ip) => Ok(SocketAddressV4::new(ip, port)),
            },
        }
    }
}

impl SocketAddressV6 {
    /// Reads the text of an IPv6 socket address.
    pub(crate) fn from_text(text: &[u8]) -> (r: Result<Self, ParseError>)
        ensures
            match r {
                Ok(socket) => parse_socket_v6(text@) == Ok::<SocketAddressV6View, ParseError>(
                    socket@,
                ),
                Err(e) => parse_socket_v6(text@) == Err::<SocketAddressV6View, ParseError>(e),
            },
    {
        match parse_port(text) {
            Err(e) => Err(e),
            Ok((prefix, port)) => match strip_brackets(prefix) {
                None => Err(ParseError::InvalidSocketAddressV6),
                Some(inside) => match IPv6Address::from_text(inside) {
                    None => Err(ParseError::InvalidIPv6Address),
                    Some(ip) => Ok(SocketAddressV6::new(ip, port)),
                },
            },
        }
    }
}

impl SocketAddress {
    /// Reads the text of a socket address.
    pub(crate) fn from_text(text: &[u8]) -> (r: Result<Self, ParseError>)
        ensures
            match r {
                Ok(socket) => parse_socket(text@) == Ok::<SocketAddressView, ParseError>(socket@),
                Err(e) => parse_socket(text@) == Err::<SocketAddressView, ParseError>(e),
            },
    {
        match parse_port(text) {
            Err(e) => Err(e),
            Ok((prefix, port)) => match strip_brackets(prefix) {
                None => match IPv4Address::from_text(prefix) {
                    None => Err(ParseError::InvalidIPv4Address),
                    Some(ip) => Ok(SocketAddress::new(IPAddress::V4(ip), port)),
                },
                Some(inside) => match IPv6Address::from_text(inside) {
                    None => Err(ParseError::InvalidIPv6Address),
                    Some(ip) => Ok(SocketAddress::new(IPAddress::V6(ip), port)),
                },
            },
        }
    }
}

impl std::str::FromStr for SocketAddressV4 {
    type Err = ParseError;

    /// Parses the text of an IPv4 socket address.
    fn from_str(s: &str) -> (r: Result<Self, ParseError>)
        ensures
            match r {
                Ok(socket) => parse_socket_v4(encode_utf8(s@)) == Ok::<
                    SocketAddressV4View,
                    ParseError,
                >(socket@),
                Err(e) => parse_socket_v4(encode_utf8(s@)) == Err::<
                    SocketAddressV4View,
                    ParseError,
                >(e),
            },
    {
        Self::from_text(s.as_bytes())
    }
}

impl std::str::FromStr for SocketAddressV6 {
    type Err = ParseError;

    /// Parses the text of an IPv6 socket address, which must be in brackets.
    fn from_str(s: &str) -> (r: Result<Self, ParseError>)
        ensures
            match r {
                Ok(socket) => parse_socket_v6(encode_utf8(s@)) == Ok::<
                    SocketAddressV6View,
                    ParseError,
                >(socket@),
                Err(e) => parse_socket_v6(encode_utf8(s@)) == Err::<
                    SocketAddressV6View,
                    ParseError,
                >(e),
            },
    {
        Self::from_text(s.as_bytes())
    }
}

impl std::str::FromStr for SocketAddress {
    type Err = ParseError;

    /// Parses the text of a socket address.
    fn from_str(s: &str) -> (r: Result<Self, ParseError>)
        ensures
            match r {
                Ok(socket) => parse_socket(encode_utf8(s@)) == Ok::<SocketAddressView, ParseError>(
                    socket@,
                ),
                Err(e) => parse_socket(encode_utf8(s@)) == Err::<SocketAddressView, ParseError>(e),
            },
    {
        Self::from_text(s.as_bytes())
    }
}

} // verus!
