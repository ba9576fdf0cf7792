use std::str::FromStr;

use address::{
    Authority, AuthorityRef, Domain, DomainRef, Endpoint, EndpointRef, Host, HostRef, IPAddress,
    IPv4Address, IPv6Address, SocketAddress, SocketAddressV4, SocketAddressV6,
};

fn v4_samples() -> Vec<IPv4Address> {
    vec![
        IPv4Address::unspecified(),
        IPv4Address::localhost(),
        IPv4Address::broadcast(),
        IPv4Address::new([1, 2, 3, 4]),
        IPv4Address::new([10, 0, 200, 99]),
        IPv4Address::new([192, 168, 1, 100]),
        IPv4Address::from(0x01000001u32),
    ]
}

fn v6_samples() -> Vec<IPv6Address> {
    let mut samples: Vec<IPv6Address> = vec![
        IPv6Address::unspecified(),
        IPv6Address::localhost(),
        IPv6Address::from_segments([1, 2, 3, 4, 5, 6, 7, 8]),
        IPv6Address::from_segments([0x2001, 0xdb8, 0, 0, 0, 0, 0, 1]),
        IPv6Address::from_segments([0xfe80, 0, 0, 0, 0x1234, 0, 0, 0xabcd]),
        IPv6Address::from_segments([0xffff; 8]),
        IPv6Address::from_segments([0, 0, 0, 0, 0, 0xffff, 0, 0]),
        IPv6Address::from(0x0123456789ABCDEF0123456789ABCDEFu128),
    ];
    for ip in v4_samples() {
        samples.push(ip.to_v6_compatible());
        samples.push(ip.to_v6_mapped());
    }
    for mask in 0..256usize {
        let mut segments: [u16; 8] = [0; 8];
        for (i, segment) in segments.iter_mut().enumerate() {
            if mask & (1 << i) != 0 {
                *segment = 0x10 + i as u16;
            }
        }
        samples.push(IPv6Address::from_segments(segments));
    }
    samples
}

fn domain_samples() -> Vec<Domain> {
    vec![
        Domain::localhost(),
        Domain::example(),
        Domain::from_str("a").unwrap(),
        Domain::from_str("a-b.c-d.e").unwrap(),
        Domain::from_str("xn--bcher-kva.example").unwrap(),
        Domain::from_str("1.2.3").unwrap(),
        Domain::from_str("fe80").unwrap(),
        Domain::from_str("Some.Mixed.CASE").unwrap(),
    ]
}

const PORTS: [u16; 8] = [0, 1, 9, 10, 80, 443, 8080, 65535];

#[test]
fn round_trip_domain() {
    for domain in domain_samples() {
        assert_eq!(Domain::from_str(&domain.to_string()), Ok(domain.clone()));
        let reference: DomainRef = domain.to_ref();
        assert_eq!(DomainRef::try_from(reference.to_string().as_str()), Ok(reference));
        assert_eq!(reference.to_domain(), domain);
    }
}

#[test]
fn round_trip_ip() {
    for ip in v4_samples() {
        assert_eq!(IPv4Address::from_str(&ip.to_string()), Ok(ip));
        assert_eq!(IPAddress::from_str(&ip.to_ip().to_string()), Ok(ip.to_ip()));
    }
    for ip in v6_samples() {
        assert_eq!(IPv6Address::from_str(&ip.to_string()), Ok(ip), "text={}", ip.to_string());
        assert_eq!(IPAddress::from_str(&ip.to_ip().to_string()), Ok(ip.to_ip()));
    }
}

#[test]
fn round_trip_host() {
    for domain in domain_samples() {
        let host: Host = domain.to_host();
        assert_eq!(Host::from_str(&host.to_string()), Ok(host.clone()));
        let reference: HostRef = host.to_ref();
        assert_eq!(reference.to_string(), host.to_string());
        assert_eq!(reference.to_host(), host);
    }
    for ip in v4_samples() {
        assert_eq!(Host::from_str(&ip.to_host().to_string()), Ok(ip.to_host()));
    }
    for ip in v6_samples() {
        assert_eq!(Host::from_str(&ip.to_host().to_string()), Ok(ip.to_host()));
    }
}

#[test]
fn host_named_like_an_address_reads_back_as_the_address() {
    let domain: Domain = Domain::from_str("1.2.3.4").unwrap();
    let host: Host = domain.clone().to_host();
    assert_eq!(host.to_string(), "1.2.3.4");
    assert_eq!(
        Host::from_str(&host.to_string()),
        Ok(IPv4Address::new([1, 2, 3, 4]).to_host())
    );
    assert_eq!(
        Authority::from_str(&host.to_authority(80).to_string()),
        Ok(IPv4Address::new([1, 2, 3, 4]).to_host().to_authority(80))
    );
    assert_eq!(
        Endpoint::from_str(&domain.clone().to_endpoint(80).to_string()),
        Ok(domain.to_endpoint(80))
    );
}

#[test]
fn round_trip_endpoint() {
    for domain in domain_samples() {
        for port in PORTS {
            let endpoint: Endpoint = domain.clone().to_endpoint(port);
            assert_eq!(Endpoint::from_str(&endpoint.to_string()), Ok(endpoint.clone()));
            let reference: EndpointRef = endpoint.to_ref();
            assert_eq!(reference.to_string(), endpoint.to_string());
            assert_eq!(reference.to_endpoint(), endpoint);
        }
    }
}

#[test]
fn round_trip_authority() {
    for port in PORTS {
        for domain in domain_samples() {
            let authority: Authority = domain.to_host().to_authority(port);
            assert_eq!(Authority::from_str(&authority.to_string()), Ok(authority.clone()));
            let reference: AuthorityRef = authority.to_ref();
            assert_eq!(reference.to_string(), authority.to_string());
            assert_eq!(reference.to_authority(), authority);
        }
        for ip in v4_samples() {
            let authority: Authority = ip.to_host().to_authority(port);
            assert_eq!(Authority::from_str(&authority.to_string()), Ok(authority));
        }
        for ip in v6_samples() {
            let authority: Authority = ip.to_host().to_authority(port);
            assert_eq!(Authority::from_str(&authority.to_string()), Ok(authority));
        }
    }
}

#[test]
fn round_trip_socket() {
    for port in PORTS {
        for ip in v4_samples() {
            let socket: SocketAddressV4 = ip.to_socket(port);
            assert_eq!(SocketAddressV4::from_str(&socket.to_string()), Ok(socket));
            let either: SocketAddress = socket.to_socket();
            assert_eq!(either.to_string(), socket.to_string());
            assert_eq!(SocketAddress::from_str(&either.to_string()), Ok(either));
            assert_eq!(either.to_authority().to_string(), either.to_string());
        }
        for ip in v6_samples() {
            let socket: SocketAddressV6 = ip.to_socket(port);
            assert_eq!(SocketAddressV6::from_str(&socket.to_string()), Ok(socket));
            let either: SocketAddress = socket.to_socket();
            assert_eq!(either.to_string(), socket.to_string());
            assert_eq!(SocketAddress::from_str(&either.to_string()), Ok(either));
            assert_eq!(either.to_authority().to_string(), either.to_string());
        }
    }
}

#[test]
fn scenario_domain_authority() {
    let authority: Authority = Authority::from_str("localhost:80").unwrap();
    assert_eq!(authority, Authority::new(Host::Name(Domain::localhost()), 80));
    assert_eq!(authority.host(), HostRef::Name(DomainRef::localhost()));
    assert_eq!(authority.port(), 80);
    assert_eq!(authority.to_string(), "localhost:80");
}

#[test]
fn scenario_ipv4_authority() {
    let authority: Authority = Authority::from_str("127.0.0.1:80").unwrap();
    assert_eq!(
        authority.host(),
        HostRef::Address(IPAddress::V4(IPv4Address::new([127, 0, 0, 1])))
    );
    assert_eq!(authority.port(), 80);
    assert_eq!(authority.to_string(), "127.0.0.1:80");
}

#[test]
fn scenario_mixed_case_domain() {
    assert_eq!(Domain::from_str("LocalHost"), Ok(Domain::localhost()));
    assert_eq!(Domain::from_str("LocalHost").unwrap().name(), "localhost");
    assert_eq!(Domain::from_str("Local!Host"), Err(address::ParseError::InvalidDomain));
}

#[test]
fn scenario_ipv4_mapped_ipv6() {
    let ip: IPv6Address = IPv6Address::from_segments([0, 0, 0, 0, 0, 0xFFFF, 0x7F00, 1]);
    assert_eq!(ip.to_v4(), Some(IPv4Address::new([127, 0, 0, 1])));
    assert_eq!(IPv4Address::localhost().to_v6_mapped(), ip);
    assert_eq!(ip.to_string(), "::ffff:127.0.0.1");
}

#[test]
fn numbers_and_bytes() {
    let ip: IPv4Address = IPv4Address::from(0xC0A80164u32);
    assert_eq!(ip.address(), [192, 168, 1, 100]);
    assert_eq!(u32::from(ip), 0xC0A80164u32);
    assert_eq!(u32::from(IPv4Address::broadcast()), u32::MAX);
    assert_eq!(IPv4Address::from(0u32), IPv4Address::unspecified());

    let ip: IPv6Address = IPv6Address::from(1u128);
    assert_eq!(ip, IPv6Address::localhost());
    assert_eq!(u128::from(IPv6Address::from_segments([0xffff; 8])), u128::MAX);
    assert_eq!(IPv6Address::from(u128::MAX).segments(), [0xffff; 8]);
    assert_eq!(
        IPv6Address::from(0x00010002000300040005000600070008u128).segments(),
        [1, 2, 3, 4, 5, 6, 7, 8]
    );
    assert_eq!(
        IPv6Address::from_segments([0x0102, 0x0304, 0, 0, 0, 0, 0, 0xfffe]).address(),
        [1, 2, 3, 4, 0, 0, 0, 0, 0, 0, 0, 0, 0, 0, 0xff, 0xfe]
    );
    assert_eq!(
        IPv4Address::new([1, 2, 3, 4]).to_v6_compatible().to_v4(),
        Some(IPv4Address::new([1, 2, 3, 4]))
    );
    assert_eq!(IPv6Address::from_segments([0, 0, 0, 0, 0, 0xfffe, 1, 2]).to_v4(), None);
    assert_eq!(IPv6Address::from_segments([0, 0, 0, 0, 0, 0x00ff, 1, 2]).to_v4(), None);
}
