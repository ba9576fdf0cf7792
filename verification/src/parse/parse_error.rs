use vstd::prelude::*;

verus! {

/// An error parsing an address: one variant for each class of failure, with
/// no text attached.
#[derive(Copy, Clone, PartialOrd, Ord, PartialEq, Eq, Structural, Hash, Debug)]
pub enum ParseError {
    InvalidDomain,
    InvalidIPv4Address,
    InvalidIPv6Address,
    InvalidIPAddress,
    InvalidPort,
    InvalidSocketAddressV4,
    InvalidSocketAddressV6,
    InvalidSocketAddress,
    InvalidHost,
    InvalidAuthority,
}

impl ParseError {
    /// What the error says, in words.
    pub open spec fn spec_message(self) -> Seq<char> {
        match self {
            ParseError::InvalidDomain => "invalid domain"@,
            ParseError::InvalidIPv4Address => "invalid IPv4 address"@,
            ParseError::InvalidIPv6Address => "invalid IPv6 address"@,
            ParseError::InvalidIPAddress => "invalid IP address"@,
            ParseError::InvalidPort => "invalid port"@,
            ParseError::InvalidSocketAddressV4 => "invalid IPv4 socket address"@,
            ParseError::InvalidSocketAddressV6 => "invalid IPv6 socket address"@,
            ParseError::InvalidSocketAddress => "invalid socket address"@,
            ParseError::InvalidHost => "invalid host"@,
            ParseError::InvalidAuthority => "invalid authority"@,
        }
    }

    /// What the error says, in words.
    pub fn message(&self) -> (r: &'static str)
        ensures
            r@ == self.spec_message(),
    {
        match self {
            ParseError::InvalidDomain => "invalid domain",
            ParseError::InvalidIPv4Address => "invalid IPv4 address",
            ParseError::InvalidIPv6Address => "invalid IPv6 address",
            ParseError::InvalidIPAddress => "invalid IP address",
            ParseError::InvalidPort => "invalid port",
            ParseError::InvalidSocketAddressV4 => "invalid IPv4 socket address",
            ParseError::InvalidSocketAddressV6 => "invalid IPv6 socket address",
            ParseError::InvalidSocketAddress => "invalid socket address",
            ParseError::InvalidHost => "invalid host",
            ParseError::InvalidAuthority => "invalid authority",
        }
    }

    /// What the error says, as a string of its own.
    pub fn to_string(&self) -> (r: String)
        ensures
            r@ == self.spec_message(),
    {
        self.message().to_owned()
    }
}

} // verus!
