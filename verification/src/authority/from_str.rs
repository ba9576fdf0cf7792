use vstd::prelude::*;
use vstd::utf8::encode_utf8;

use crate::authority::authority::{Authority, AuthorityView};
use crate::host::from_str::parse_host;
use crate::host::host::{Host, HostView};
use crate::ip::from_str::parse_ipv6;
use crate::ip::ip_address::{IPAddress, IPAddressView};
use crate::ip::ipv6_address::IPv6Address;
use crate::parse::brackets::{inside_brackets, is_bracketed, strip_brackets};
use crate::parse::parse_error::ParseError;
use crate::parse::parse_port::{parse_port, split_port};

verus! {

/// The authority that a text spells. The text is split at its last colon;
/// what follows must spell a port, else the error is `InvalidPort`. Where
/// what stands before is bracketed, the inside must be the text of an IPv6
/// address, else the error is `InvalidIPv6Address`. Where it is not
/// bracketed it must spell a host, else the error is `InvalidHost`, and that
/// host must be no IPv6 address, else the error is `InvalidAuthority`.
pub open spec fn parse_authority(text: Seq<u8>) -> Result<AuthorityView, ParseError> {
    match split_port(text) {
        None => Err(ParseError::InvalidPort),
        Some((prefix, port)) => if is_bracketed(prefix) {
            match parse_ipv6(inside_brackets(prefix)) {
                None => Err(ParseError::InvalidIPv6Address),
                Some(octets) => Ok(
                    AuthorityView { host: HostView::Address(IPAddressView::V6(octets)), port },
                ),
            }
        } else {
            match parse_host(prefix) {
                None => Err(ParseError::InvalidHost),
                Some(HostView::Address(IPAddressView::V6(_))) => Err(ParseError::InvalidAuthority),
                Some(host) => Ok(AuthorityView { host, port }),
            }
        },
    }
}

impl Authority {
    /// Reads the text of an authority.
    pub(crate) fn from_text(text: &[u8]) -> (r: Result<Self, ParseError>)
        ensures
            match r {
                Ok(authority) => parse_authority(text@) == Ok::<AuthorityView, ParseError>(
                    authority@,
                ) && authority@.wf(),
                Err(e) => parse_authority(text@) == Err::<AuthorityView, ParseError>(e),
            },
    {
        match parse_port(text) {
            Err(e) => Err(e),
            Ok((prefix, port)) => match strip_brackets(prefix) {
                Some(inside) => match IPv6Address::from_text(inside) {
                    None => Err(ParseError::InvalidIPv6Address),
                    Some(ip) => {
                        proof {
                            ip.lemma_view(ip);
                        }
                        Ok(Authority::new(Host::Address(IPAddress::V6(ip)), port))
                    },
                },
                None => match Host::from_text(prefix) {
                    None => Err(ParseError::InvalidHost),
                    Some(host) => {
                        if let Host::Address(IPAddress::V6(_)) = host {
                            Err(ParseError::InvalidAuthority)
                        } else {
                            Ok(Authority::new(host, port))
                        }
                    },
                },
            },
        }
    }
}

impl std::str::FromStr for Authority {
    type Err = ParseError;

    /// Parses the text of an authority.
    fn from_str(s: &str) -> (r: Result<Self, ParseError>)
        ensures
            match r {
                Ok(authority) => parse_authority(encode_utf8(s@)) == Ok::<
                    AuthorityView,
                    ParseError,
                >(authority@) && authority@.wf(),
                Err(e) => parse_authority(encode_utf8(s@)) == Err::<AuthorityView, ParseError>(e),
            },
    {
        Self::from_text(s.as_bytes())
    }
}

} // verus!
