use address::{
    Authority, Domain, Endpoint, Host, IPAddress, IPv4Address, IPv6Address, SocketAddress,
    SocketAddressV4, SocketAddressV6,
};

#[test]
fn display_display() {
    let test_cases: &[(Authority, &str)] = &[
        (
            Domain::localhost().to_host().to_authority(80),
            "localhost:80",
        ),
        (
            IPv4Address::localhost().to_host().to_authority(80),
            "127.0.0.1:80",
        ),
        (
            IPv6Address::localhost().to_host().to_authority(80),
            "[::1]:80",
        ),
    ];

    for (host, expected) in test_cases {
        let result: String = host.to_string();
        assert_eq!(result, *expected);
    }
}

#[test]
fn display() {
    let domain: Domain = Domain::localhost();

    let result: String = domain.to_string();
    let expected: &str = "localhost";
    assert_eq!(result, expected);
}

#[test]
fn endpoint_display() {
    let endpoint: Endpoint = Domain::localhost().to_endpoint(80);

    let result: String = endpoint.to_string();
    let expected: &str = "localhost:80";
    assert_eq!(result, expected);
}

#[test]
fn host_display() {
    let test_cases: &[(Host, &str)] = &[
        (Domain::localhost().to_host(), "localhost"),
        (IPv4Address::localhost().to_host(), "127.0.0.1"),
        (IPv6Address::localhost().to_host(), "::1"),
    ];

    for (host, expected) in test_cases {
        let result: String = host.to_string();
        assert_eq!(result, *expected);
    }
}

#[test]
fn display_v4() {
    let test_cases: &[(IPv4Address, &str)] = &[
        (IPv4Address::unspecified(), "0.0.0.0"),
        (IPv4Address::localhost(), "127.0.0.1"),
        (IPv4Address::broadcast(), "255.255.255.255"),
    ];

    for (ip, expected) in test_cases {
        let result: String = ip.to_string();
        assert_eq!(result, *expected);
    }
}

#[test]
fn display_v6() {
    let test_cases: &[(IPv6Address, &str)] = &[
        (IPv6Address::unspecified(), "::"),
        (IPv6Address::localhost(), "::1"),
    ];

    for (ip, expected) in test_cases {
        let result: String = ip.to_string();
        assert_eq!(result, *expected);
    }
}

#[test]
fn display_ip() {
    let test_cases: &[(IPAddress, &str)] = &[
        (IPv4Address::localhost().to_ip(), "127.0.0.1"),
        (IPv6Address::localhost().to_ip(), "::1"),
    ];

    for (ip, expected) in test_cases {
        let result: String = ip.to_string();
        assert_eq!(result, *expected);
    }
}

#[test]
fn v4() {
    let socket: SocketAddressV4 = IPv4Address::localhost().to_socket(80);

    let result: String = socket.to_string();
    let expected: &str = "127.0.0.1:80";
    assert_eq!(result, expected);
}

#[test]
fn v6() {
    let socket: SocketAddressV6 = IPv6Address::localhost().to_socket(80);

    let result: String = socket.to_string();
    let expected: &str = "[::1]:80";
    assert_eq!(result, expected);
}

#[test]
fn display_socket() {
    let socket: SocketAddress = IPv4Address::localhost().to_socket(80).to_socket();
    let result: String = socket.to_string();
    let expected: &str = "127.0.0.1:80";
    assert_eq!(result, expected);

    let socket: SocketAddress = IPv6Address::localhost().to_socket(80).to_socket();
    let result: String = socket.to_string();
    let expected: &str = "[::1]:80";
    assert_eq!(result, expected);
}
