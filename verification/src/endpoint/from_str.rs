use vstd::prelude::*;
use vstd::utf8::encode_utf8;

use crate::domain::domain::Domain;
use crate::domain::from_str::parse_domain;
use crate::endpoint::endpoint::{Endpoint, EndpointView};
use crate::parse::parse_error::ParseError;
use crate::parse::parse_port::{parse_port, split_port};

verus! {

/// The endpoint that a text spells. The text is split at its last colon; what
/// follows must spell a port, else the error is `InvalidPort`; what stands
/// before must be a domain name, else it is `InvalidDomain`. Brackets are
/// never taken off.
pub open spec fn parse_endpoint(text: Seq<u8>) -> Result<EndpointView, ParseError> {
    match split_port(text) {
        None => Err(ParseError::InvalidPort),
        Some((prefix, port)) => match parse_domain(prefix) {
            None => Err(ParseError::InvalidDomain),
            Some(name) => Ok(EndpointView { domain: name, port }),
        },
    }
}

impl Endpoint {
    /// Reads the text of an endpoint.
    pub(crate) fn from_text(text: &[u8]) -> (r: Result<Self, ParseError>)
        ensures
            match r {
                Ok(endpoint) => parse_endpoint(text@) == Ok::<EndpointView, ParseError>(endpoint@)
                    && endpoint@.wf(),
                Err(e) => parse_endpoint(text@) == Err::<EndpointView, ParseError>(e),
            },
    {
        match parse_port(text) {
            Err(e) => Err(e),
            Ok((prefix, port)) => match Domain::try_from(prefix) {
                Err(e) => Err(e),
                Ok(domain) => Ok(Endpoint::new(domain, port)),
            },
        }
    }
}

impl std::str::FromStr for Endpoint {
    type Err = ParseError;

    /// Parses the text of an endpoint.
    fn from_str(s: &str) -> (r: Result<Self, ParseError>)
        ensures
            match r {
                Ok(endpoint) => parse_endpoint(encode_utf8(s@)) == Ok::<EndpointView, ParseError>(
                    endpoint@,
                ) && endpoint@.wf(),
                Err(e) => parse_endpoint(encode_utf8(s@)) == Err::<EndpointView, ParseError>(e),
            },
    {
        Self::from_text(s.as_bytes())
    }
}

} // verus!
