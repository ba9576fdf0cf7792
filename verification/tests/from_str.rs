use std::str::FromStr;

use address::ParseError::{
    InvalidAuthority, InvalidDomain, InvalidHost, InvalidIPAddress, InvalidIPv4Address,
    InvalidIPv6Address, InvalidPort, InvalidSocketAddressV6,
};
use address::{
    Authority, Domain, DomainRef, Endpoint, Host, IPAddress, IPv4Address, IPv6Address,
    ParseError, SocketAddress, SocketAddressV4, SocketAddressV6,
};

#[test]
fn from_str_from_str() {
    let test_cases: &[(&str, Result<Authority, ParseError>)] = &[
        ("", Err(InvalidPort)),
        ("localhost:", Err(InvalidPort)),
        ("localhost:xx", Err(InvalidPort)),
        (":80", Err(InvalidHost)),
        (
            "127.0.0.1:80",
            Ok(IPv4Address::localhost().to_host().to_authority(80)),
        ),
        ("::1:80", Err(InvalidAuthority)),
        (
            "[::1]:80",
            Ok(IPv6Address::localhost().to_host().to_authority(80)),
        ),
        (
            "localhost:80",
            Ok(Domain::localhost().to_host().to_authority(80)),
        ),
    ];

    for (input, expected) in test_cases {
        let result: Result<Authority, ParseError> = Authority::from_str(input);
        assert_eq!(result, *expected, "input={}", *input);
    }
}

#[test]
fn from_str() {
    let result: Result<Domain, ParseError> = Domain::from_str("localhost");
    assert_eq!(result, Ok(Domain::localhost()));

    let result: Result<Domain, ParseError> = Domain::from_str("LocalHost");
    assert_eq!(result, Ok(Domain::localhost()));

    let result: Result<Domain, ParseError> = Domain::from_str("Local!Host");
    assert_eq!(result, Err(InvalidDomain));
}

#[test]
fn endpoint_from_str() {
    let test_cases: &[(&str, Result<Endpoint, ParseError>)] = &[
        ("", Err(InvalidPort)),
        ("localhost:", Err(InvalidPort)),
        ("localhost:xx", Err(InvalidPort)),
        (":80", Err(InvalidDomain)),
        ("[localhost]:80", Err(InvalidDomain)),
        (
            "LocalHost:80",
            Ok(DomainRef::localhost().to_domain().to_endpoint(80)),
        ),
        (
            "localhost:80",
            Ok(DomainRef::localhost().to_domain().to_endpoint(80)),
        ),
    ];

    for (input, expected) in test_cases {
        let result: Result<Endpoint, ParseError> = Endpoint::from_str(input);
        assert_eq!(result, *expected, "input={}", input);
    }
}

#[test]
fn host_from_str() {
    let test_cases: &[(&str, Result<Host, ParseError>)] = &[
        ("", Err(InvalidHost)),
        ("localhost", Ok(Domain::localhost().to_host())),
        ("127.0.0.1", Ok(IPv4Address::localhost().to_host())),
        ("::1", Ok(IPv6Address::localhost().to_host())),
        ("[::1]", Err(InvalidHost)),
    ];

    for (input, expected) in test_cases {
        let result: Result<Host, ParseError> = Host::from_str(input);
        assert_eq!(result, *expected);
    }
}

#[test]
fn from_str_v4() {
    let test_cases: &[(&str, Result<IPv4Address, ParseError>)] = &[
        ("", Err(InvalidIPv4Address)),
        ("0.0.0.0", Ok(IPv4Address::unspecified())),
        ("127.0.0.1", Ok(IPv4Address::localhost())),
        ("255.255.255.255", Ok(IPv4Address::broadcast())),
    ];

    for (input, expected) in test_cases {
        let result: Result<IPv4Address, ParseError> = IPv4Address::from_str(input);
        assert_eq!(result, *expected);
    }
}

#[test]
fn from_str_v6() {
    let test_cases: &[(&str, Result<IPv6Address, ParseError>)] = &[
        ("", Err(InvalidIPv6Address)),
        ("::", Ok(IPv6Address::unspecified())),
        ("::1", Ok(IPv6Address::localhost())),
    ];

    for (input, expected) in test_cases {
        let result: Result<IPv6Address, ParseError> = IPv6Address::from_str(input);
        assert_eq!(result, *expected);
    }
}

#[test]
fn from_str_ip() {
    let test_cases: &[(&str, Result<IPAddress, ParseError>)] = &[
        ("", Err(InvalidIPAddress)),
        ("127.0.0.1", Ok(IPv4Address::localhost().to_ip())),
        ("::1", Ok(IPv6Address::localhost().to_ip())),
    ];

    for (input, expected) in test_cases {
        let result: Result<IPAddress, ParseError> = IPAddress::from_str(input);
        assert_eq!(result, *expected);
    }
}

#[test]
fn socket_from_str_v4() {
    let test_cases: &[(&str, Result<SocketAddressV4, ParseError>)] = &[
        ("", Err(InvalidPort)),
        ("127.0.0.1:", Err(InvalidPort)),
        ("127.0.0.1:xx", Err(InvalidPort)),
        (":80", Err(InvalidIPv4Address)),
        ("xx:80", Err(InvalidIPv4Address)),
        ("127.0.0.1:80", Ok(IPv4Address::localhost().to_socket(80))),
    ];

    for (input, expected) in test_cases {
        let result: Result<SocketAddressV4, ParseError> = SocketAddressV4::from_str(input);
        assert_eq!(result, *expected, "input={}", input);
    }
}

#[test]
fn socket_from_str_v6() {
    let test_cases: &[(&str, Result<SocketAddressV6, ParseError>)] = &[
        ("", Err(InvalidPort)),
        ("[::1]:", Err(InvalidPort)),
        ("[::1]:xx", Err(InvalidPort)),
        (":80", Err(InvalidSocketAddressV6)),
        ("xx:80", Err(InvalidSocketAddressV6)),
        ("[xx]:80", Err(InvalidIPv6Address)),
        ("[::1]:80", Ok(IPv6Address::localhost().to_socket(80))),
    ];

    for (input, expected) in test_cases {
        let result: Result<SocketAddressV6, ParseError> = SocketAddressV6::from_str(input);
        assert_eq!(result, *expected, "input={}", input);
    }
}

#[test]
fn from_str_socket() {
    let test_cases: &[(&str, Result<SocketAddress, ParseError>)] = &[
        ("", Err(InvalidPort)),
        ("[::1]:", Err(InvalidPort)),
        ("[::1]:xx", Err(InvalidPort)),
        (":80", Err(InvalidIPv4Address)),
        ("xx:80", Err(InvalidIPv4Address)),
        ("::1:80", Err(InvalidIPv4Address)),
        ("[]:80", Err(InvalidIPv6Address)),
        ("[xx]:80", Err(InvalidIPv6Address)),
        (
            "[::1]:80",
            Ok(IPv6Address::localhost().to_socket(80).to_socket()),
        ),
    ];

    for (input, expected) in test_cases {
        let result: Result<SocketAddress, ParseError> = SocketAddress::from_str(input);
        assert_eq!(result, *expected, "input={}", input);
    }
}
