use vstd::prelude::*;
use vstd::utf8::encode_utf8;

use crate::domain::domain::Domain;
use crate::domain::from_str::parse_domain;
use crate::host::host::{Host, HostView};
use crate::ip::from_str::parse_ip;
use crate::ip::ip_address::IPAddress;
use crate::parse::parse_error::ParseError;

verus! {

/// The host that a text spells: an IP address where it is the text of one,
/// else a domain where it is a name.
pub open spec fn parse_host(text: Seq<u8>) -> Option<HostView> {
    match parse_ip(text) {
        Some(ip) => Some(HostView::Address(ip)),
        None => match parse_domain(text) {
            Some(name) => Some(HostView::Name(name)),
            None => None,
        },
    }
}

impl Host {
    /// Reads the text of a host.
    pub(crate) fn from_text(text: &[u8]) -> (r: Option<Self>)
        ensures
            match r {
                Some(host) => parse_host(text@) == Some(host@) && host@.wf(),
                None => parse_host(text@) is None,
            },
    {
        match IPAddress::from_text(text) {
            Some(ip) => {
                proof {
                    ip.lemma_view(ip);
                }
                Some(Host::Address(ip))
            },
            None => match Domain::try_from(text) {
                Ok(domain) => Some(Host::Name(domain)),
                Err(_) => None,
            },
        }
    }
}

impl std::str::FromStr for Host {
    type Err = ParseError;

    /// Parses the text of a host: an IP address first, then a domain.
    fn from_str(s: &str) -> (r: Result<Self, ParseError>)
        ensures
            match r {
                Ok(host) => parse_host(encode_utf8(s@)) == Some(host@) && host@.wf(),
                Err(e) => e == ParseError::InvalidHost && parse_host(encode_utf8(s@)) is None,
            },
    {
        match Self::from_text(s.as_bytes()) {
            Some(host) => Ok(host),
            None => Err(ParseError::InvalidHost),
        }
    }
}

} // verus!
