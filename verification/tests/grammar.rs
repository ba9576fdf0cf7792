use std::str::FromStr;

use address::ParseError::{
    InvalidAuthority, InvalidDomain, InvalidHost, InvalidIPAddress, InvalidIPv4Address,
    InvalidIPv6Address, InvalidPort, InvalidSocketAddressV6,
};
use address::{
    parse_port, Authority, Domain, DomainRef, Endpoint, Host, IPAddress, IPv4Address,
    IPv6Address, ParseError, SocketAddress, SocketAddressV4, SocketAddressV6,
};

#[test]
fn label_boundary() {
    let longest: String = "a".repeat(63);
    let too_long: String = "a".repeat(64);
    assert!(Domain::is_valid_label_str(&longest, false));
    assert!(!Domain::is_valid_label_str(&too_long, false));
    assert!(!Domain::is_valid_label_str(&too_long, true));
    assert!(!Domain::is_valid_label_str("-abc", false));
    assert!(!Domain::is_valid_label_str("abc-", false));
    assert!(!Domain::is_valid_label_str("-", false));
    assert!(!Domain::is_valid_label_str("-", true));
    assert!(Domain::is_valid_label_str("a", false));
    assert!(Domain::is_valid_label_str("xn--bcher-kva", false));
    assert!(!Domain::is_valid_label_str("a_b", true));
    assert!(!Domain::is_valid_label_str("a.b", true));
    assert!(!Domain::is_valid_label_str("a b", true));
    assert!(Domain::is_valid_label(b"a-0", false));
    assert!(!Domain::is_valid_label(&[0xC3, 0xA9], true));
}

#[test]
fn name_boundary() {
    let label: String = "a".repeat(63);
    let longest: String = format!("{}.{}.{}.{}", label, label, label, "a".repeat(61));
    assert_eq!(longest.len(), 253);
    assert!(Domain::is_valid_name_str(&longest, false));

    let too_long: String = format!("{}.{}.{}.{}", label, label, label, "a".repeat(62));
    assert_eq!(too_long.len(), 254);
    assert!(!Domain::is_valid_name_str(&too_long, false));
    assert!(!Domain::is_valid_name_str(&too_long, true));

    assert!(!Domain::is_valid_name_str("a..b", false));
    assert!(!Domain::is_valid_name_str(".a.b", false));
    assert!(!Domain::is_valid_name_str("a.b.", false));
    assert!(!Domain::is_valid_name_str(".", false));
    assert!(!Domain::is_valid_name_str("..", true));
    assert!(!Domain::is_valid_name_str(&format!("{}a.b", label), false));
    assert!(Domain::is_valid_name(b"example.com", false));
    assert!(!Domain::is_valid_name(b"example.-com", false));
    assert!(!Domain::is_valid_name(b"exa mple.com", true));
}

#[test]
fn domain_case_folding() {
    let inputs: &[&str] = &["LocalHost", "EXAMPLE.COM", "example.com", "a-B.c-D", "Xn--A"];
    for input in inputs {
        let folded: String = input.to_ascii_lowercase();
        let plain: Domain = Domain::from_str(input).unwrap();
        assert_eq!(plain.name(), folded);
        assert_eq!(Domain::from_str(input), Domain::from_str(&folded));
        assert_eq!(Domain::try_from(input.as_bytes()), Domain::from_str(&folded));
    }

    assert_eq!(Domain::from_str("Local!Host"), Err(InvalidDomain));
    assert_eq!(Domain::from_str("m\u{fc}nchen.de"), Err(InvalidDomain));
    assert_eq!(Domain::from_str("\u{161}.com"), Err(InvalidDomain));
    assert_eq!(Domain::from_str(""), Err(InvalidDomain));
}

#[test]
fn domain_hands_back_what_it_rejects() {
    let result: Result<Domain, (ParseError, String)> = Domain::try_from("no_good".to_string());
    assert_eq!(result, Err((InvalidDomain, "no_good".to_string())));

    let result: Result<Domain, (ParseError, Vec<u8>)> = Domain::try_from(vec![0xFF, 0xFE]);
    assert_eq!(result, Err((InvalidDomain, vec![0xFF, 0xFE])));
}

#[test]
fn domain_ref_borrows_valid_bytes_only() {
    let bytes: &[u8] = b"example.com";
    let domain: DomainRef = DomainRef::try_from(bytes).unwrap();
    assert_eq!(domain.name(), "example.com");
    assert_eq!(domain, DomainRef::example());

    let result: Result<DomainRef, ParseError> = DomainRef::try_from(&[0xFFu8, 0xFE][..]);
    assert_eq!(result, Err(InvalidDomain));
    let result: Result<DomainRef, ParseError> = DomainRef::try_from(&b"Example.com"[..]);
    assert_eq!(result, Err(InvalidDomain));
    let result: Result<DomainRef, ParseError> = DomainRef::try_from("");
    assert_eq!(result, Err(InvalidDomain));
}

#[test]
fn port_boundary() {
    assert_eq!(
        Authority::from_str("host:0"),
        Ok(Domain::from_str("host").unwrap().to_host().to_authority(0))
    );
    assert_eq!(
        Authority::from_str("host:65535"),
        Ok(Domain::from_str("host").unwrap().to_host().to_authority(65535))
    );
    assert_eq!(Authority::from_str("host:65536"), Err(InvalidPort));
    assert_eq!(Authority::from_str("host:-1"), Err(InvalidPort));
    assert_eq!(Authority::from_str("host"), Err(InvalidPort));
    assert_eq!(Authority::from_str("host:+80"), Err(InvalidPort));
    assert_eq!(Authority::from_str("host: 80"), Err(InvalidPort));
    assert_eq!(Authority::from_str("host:80 "), Err(InvalidPort));
    assert_eq!(Authority::from_str("host:8o"), Err(InvalidPort));
    assert_eq!(Authority::from_str("host:99999999999999999999"), Err(InvalidPort));
    assert_eq!(Authority::from_str("80"), Err(InvalidPort));
}

#[test]
fn port_splitting() {
    assert_eq!(parse_port(b"localhost:80"), Ok((&b"localhost"[..], 80)));
    assert_eq!(parse_port(b":80"), Ok((&b""[..], 80)));
    assert_eq!(parse_port(b":8x"), Err(InvalidPort));
    assert_eq!(parse_port(b"80"), Err(InvalidPort));
    assert_eq!(parse_port(b""), Err(InvalidPort));
    assert_eq!(parse_port(b"a:b:443"), Ok((&b"a:b"[..], 443)));
    assert_eq!(parse_port(b"[::1]:8080"), Ok((&b"[::1]"[..], 8080)));
    assert_eq!(parse_port(b"host:080"), Ok((&b"host"[..], 80)));
    assert_eq!(parse_port(b"host:0000000000000000065535"), Ok((&b"host"[..], 65535)));
    assert_eq!(parse_port(b"host:0000000000000000065536"), Err(InvalidPort));
    assert_eq!(parse_port(b"host:"), Err(InvalidPort));
    assert_eq!(parse_port(b"host:80:"), Err(InvalidPort));
}

#[test]
fn ipv4_grammar() {
    let accepted: &[(&str, [u8; 4])] = &[
        ("0.0.0.0", [0, 0, 0, 0]),
        ("1.2.3.4", [1, 2, 3, 4]),
        ("10.20.30.40", [10, 20, 30, 40]),
        ("192.168.100.255", [192, 168, 100, 255]),
        ("255.255.255.255", [255, 255, 255, 255]),
        ("9.99.199.249", [9, 99, 199, 249]),
    ];
    for (input, expected) in accepted {
        assert_eq!(
            IPv4Address::from_str(input),
            Ok(IPv4Address::new(*expected)),
            "input={}",
            input
        );
    }

    let rejected: &[&str] = &[
        "", ".", "1", "1.2.3", "1.2.3.4.5", "1.2.3.", ".1.2.3", "1..2.3", "256.0.0.1",
        "1.2.3.256", "1.2.3.1000", "01.2.3.4", "1.2.3.04", "00.0.0.0", "1.2.3.4 ", " 1.2.3.4",
        "+1.2.3.4", "-1.2.3.4", "1.2.3.a", "0x1.2.3.4", "1,2,3,4", "1.2.3.4:80", "::1",
    ];
    for input in rejected {
        assert_eq!(IPv4Address::from_str(input), Err(InvalidIPv4Address), "input={}", input);
    }
}

#[test]
fn ipv6_grammar() {
    let accepted: &[(&str, [u16; 8])] = &[
        ("::", [0, 0, 0, 0, 0, 0, 0, 0]),
        ("::1", [0, 0, 0, 0, 0, 0, 0, 1]),
        ("1::", [1, 0, 0, 0, 0, 0, 0, 0]),
        ("1::8", [1, 0, 0, 0, 0, 0, 0, 8]),
        ("1:2:3:4:5:6:7:8", [1, 2, 3, 4, 5, 6, 7, 8]),
        ("1:2:3:4:5:6:7::", [1, 2, 3, 4, 5, 6, 7, 0]),
        ("::2:3:4:5:6:7:8", [0, 2, 3, 4, 5, 6, 7, 8]),
        ("1:2:3:4::6:7:8", [1, 2, 3, 4, 0, 6, 7, 8]),
        ("2001:db8::1", [0x2001, 0xdb8, 0, 0, 0, 0, 0, 1]),
        ("2001:DB8::A:b", [0x2001, 0xdb8, 0, 0, 0, 0, 0xa, 0xb]),
        ("0001:002:03:4::", [1, 2, 3, 4, 0, 0, 0, 0]),
        ("ffff:ffff:ffff:ffff:ffff:ffff:ffff:ffff", [0xffff; 8]),
        ("::ffff:1.2.3.4", [0, 0, 0, 0, 0, 0xffff, 0x0102, 0x0304]),
        ("::1.2.3.4", [0, 0, 0, 0, 0, 0, 0x0102, 0x0304]),
        ("1:2:3:4:5:6:1.2.3.4", [1, 2, 3, 4, 5, 6, 0x0102, 0x0304]),
        ("1::255.255.255.255", [1, 0, 0, 0, 0, 0, 0xffff, 0xffff]),
        ("1:2:3:4:5::1.2.3.4", [1, 2, 3, 4, 5, 0, 0x0102, 0x0304]),
        ("0:0:0:0:0:0:0:0", [0, 0, 0, 0, 0, 0, 0, 0]),
    ];
    for (input, expected) in accepted {
        assert_eq!(
            IPv6Address::from_str(input),
            Ok(IPv6Address::from_segments(*expected)),
            "input={}",
            input
        );
    }

    let rejected: &[&str] = &[
        "", ":", ":::", "1", "1:", ":1", "1:2", "1:2:3:4:5:6:7", "1:2:3:4:5:6:7:8:9",
        "1:2:3:4:5:6:7:8::", "::1:2:3:4:5:6:7:8", "1:2:3:4:5::6:7:8", "1::2::3", "1:::2",
        "12345::", "::12345", "g::", "::g", "1:2:3:4:5:6:7:1.2.3.4", "1:2:3:4:5:1.2.3.4",
        "1.2.3.4::", "1.2.3.4", "::1.2.3.4:5", "::1.2.3", "::1.2.3.256", "::01.2.3.4",
        "1:2:3:4:5:6::1.2.3.4", "[::1]", "::1 ", " ::1", "::1%eth0", "1:2:3:4:5:6:7:",
        ":1:2:3:4:5:6:7", "::ffff:1.2.3.4.5", "-1::",
    ];
    for input in rejected {
        assert_eq!(IPv6Address::from_str(input), Err(InvalidIPv6Address), "input={}", input);
    }
}

#[test]
fn ipv6_text() {
    let test_cases: &[([u16; 8], &str)] = &[
        ([0, 0, 0, 0, 0, 0, 0, 0], "::"),
        ([0, 0, 0, 0, 0, 0, 0, 1], "::1"),
        ([1, 0, 0, 0, 0, 0, 0, 0], "1::"),
        ([1, 0, 0, 0, 0, 0, 0, 8], "1::8"),
        ([1, 2, 3, 4, 5, 6, 7, 8], "1:2:3:4:5:6:7:8"),
        ([1, 0, 2, 3, 4, 5, 6, 7], "1:0:2:3:4:5:6:7"),
        ([1, 0, 0, 2, 0, 0, 0, 3], "1:0:0:2::3"),
        ([1, 0, 0, 2, 0, 0, 3, 4], "1::2:0:0:3:4"),
        ([0, 0, 1, 0, 0, 0, 0, 0], "0:0:1::"),
        ([0, 0, 1, 2, 3, 4, 0, 0], "::1:2:3:4:0:0"),
        ([0, 1, 2, 3, 4, 5, 6, 0], "0:1:2:3:4:5:6:0"),
        ([0x2001, 0xdb8, 0, 0, 0, 0, 0, 1], "2001:db8::1"),
        ([0xffff; 8], "ffff:ffff:ffff:ffff:ffff:ffff:ffff:ffff"),
        ([0xabcd, 0xef, 0x10, 0x1, 0, 0xa0b, 0xc00, 0xd000], "abcd:ef:10:1:0:a0b:c00:d000"),
        ([0, 0, 0, 0, 0, 0xffff, 0x7f00, 1], "::ffff:127.0.0.1"),
        ([0, 0, 0, 0, 0, 0xffff, 0, 0], "::ffff:0.0.0.0"),
        ([0, 0, 0, 0, 0, 0xffff, 0xffff, 0xffff], "::ffff:255.255.255.255"),
        ([0, 0, 0, 0, 0, 0, 0x7f00, 1], "::7f00:1"),
        ([0, 0, 0, 0, 1, 0xffff, 0x7f00, 1], "::1:ffff:7f00:1"),
    ];
    for (segments, expected) in test_cases {
        let ip: IPv6Address = IPv6Address::from_segments(*segments);
        assert_eq!(ip.to_string(), *expected);
        assert_eq!(IPv6Address::from_str(expected), Ok(ip));
    }
}

#[test]
fn ip_and_host_order() {
    assert_eq!(
        IPAddress::from_str("1.2.3.4"),
        Ok(IPAddress::V4(IPv4Address::new([1, 2, 3, 4])))
    );
    assert_eq!(
        IPAddress::from_str("::1.2.3.4"),
        Ok(IPAddress::V6(IPv6Address::from_segments([0, 0, 0, 0, 0, 0, 0x0102, 0x0304])))
    );
    assert_eq!(IPAddress::from_str("localhost"), Err(InvalidIPAddress));
    assert_eq!(IPAddress::from_str("1.2.3"), Err(InvalidIPAddress));

    assert_eq!(Host::from_str("1.2.3.4"), Ok(IPv4Address::new([1, 2, 3, 4]).to_host()));
    assert_eq!(Host::from_str("1.2.3"), Ok(Domain::from_str("1.2.3").unwrap().to_host()));
    assert_eq!(
        Host::from_str("1.2.3.256"),
        Ok(Domain::from_str("1.2.3.256").unwrap().to_host())
    );
    assert_eq!(Host::from_str("Example.COM"), Ok(Domain::example().to_host()));
    assert_eq!(Host::from_str("exa_mple"), Err(InvalidHost));
    assert_eq!(Host::from_str("[::1]"), Err(InvalidHost));
}

#[test]
fn bracket_disambiguation() {
    assert_eq!(
        Authority::from_str("[::1]:80"),
        Ok(IPv6Address::localhost().to_host().to_authority(80))
    );
    assert_eq!(Authority::from_str("::1:80"), Err(InvalidAuthority));
    assert_eq!(Authority::from_str("2001:db8::1:443"), Err(InvalidAuthority));
    assert_eq!(Authority::from_str("[]:80"), Err(InvalidIPv6Address));
    assert_eq!(Authority::from_str("[xx]:80"), Err(InvalidIPv6Address));
    assert_eq!(Authority::from_str("[127.0.0.1]:80"), Err(InvalidIPv6Address));
    assert_eq!(Authority::from_str("[localhost]:80"), Err(InvalidIPv6Address));
    assert_eq!(Authority::from_str("[::1:80"), Err(InvalidHost));
    assert_eq!(Authority::from_str("::1]:80"), Err(InvalidHost));
    assert_eq!(Authority::from_str("[:80"), Err(InvalidHost));
    assert_eq!(Authority::from_str("]:80"), Err(InvalidHost));
    assert_eq!(Authority::from_str(":80"), Err(InvalidHost));

    assert_eq!(SocketAddressV6::from_str("::1:80"), Err(InvalidSocketAddressV6));
    assert_eq!(SocketAddressV6::from_str("127.0.0.1:80"), Err(InvalidSocketAddressV6));
    assert_eq!(SocketAddressV6::from_str("[:80"), Err(InvalidSocketAddressV6));
    assert_eq!(SocketAddressV6::from_str("[127.0.0.1]:80"), Err(InvalidIPv6Address));
    assert_eq!(
        SocketAddressV6::from_str("[2001:db8::1]:443"),
        Ok(IPv6Address::from_segments([0x2001, 0xdb8, 0, 0, 0, 0, 0, 1]).to_socket(443))
    );

    assert_eq!(
        SocketAddress::from_str("127.0.0.1:80"),
        Ok(IPv4Address::localhost().to_socket(80).to_socket())
    );
    assert_eq!(SocketAddress::from_str("[127.0.0.1]:80"), Err(InvalidIPv6Address));
    assert_eq!(SocketAddress::from_str("localhost:80"), Err(InvalidIPv4Address));
    assert_eq!(SocketAddressV4::from_str("[::1]:80"), Err(InvalidIPv4Address));

    assert_eq!(Endpoint::from_str("[::1]:80"), Err(InvalidDomain));
    assert_eq!(Endpoint::from_str("127.0.0.1:80").map(|e| e.port()), Ok(80));
    assert_eq!(Endpoint::from_str("::1:80"), Err(InvalidDomain));
}

#[test]
fn error_messages() {
    let test_cases: &[(ParseError, &str)] = &[
        (ParseError::InvalidDomain, "invalid domain"),
        (ParseError::InvalidIPv4Address, "invalid IPv4 address"),
        (ParseError::InvalidIPv6Address, "invalid IPv6 address"),
        (ParseError::InvalidIPAddress, "invalid IP address"),
        (ParseError::InvalidPort, "invalid port"),
        (ParseError::InvalidSocketAddressV4, "invalid IPv4 socket address"),
        (ParseError::InvalidSocketAddressV6, "invalid IPv6 socket address"),
        (ParseError::InvalidSocketAddress, "invalid socket address"),
        (ParseError::InvalidHost, "invalid host"),
        (ParseError::InvalidAuthority, "invalid authority"),
    ];
    for (error, expected) in test_cases {
        assert_eq!(error.message(), *expected);
        assert_eq!(error.to_string(), *expected);
    }
}
