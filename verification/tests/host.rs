use address::{
    Authority, AuthorityRef, Domain, DomainRef, Host, HostRef, IPAddress, IPv4Address,
};

#[test]
fn host_construction() {
    let result: Host = Domain::localhost().into();
    let expected: Host = Host::Name(Domain::localhost());
    assert_eq!(result, expected);

    let result: Host = IPv4Address::localhost().into();
    let expected: Host = Host::Address(IPAddress::V4(IPv4Address::localhost()));
    assert_eq!(result, expected);
}

#[test]
fn host_matching() {
    let host: Host = Domain::localhost().into();
    assert!(host.is_domain());
    assert!(!host.is_ip());

    let host: Host = IPv4Address::localhost().into();
    assert!(!host.is_domain());
    assert!(host.is_ip());
}

#[test]
fn host_ref_construction() {
    let result: HostRef = DomainRef::localhost().into();
    let expected: HostRef = HostRef::Name(DomainRef::localhost());
    assert_eq!(result, expected);

    let host: Host = Host::Address(IPAddress::V4(IPv4Address::localhost()));
    let result: HostRef = host.to_ref();
    let expected: HostRef = HostRef::Address(IPAddress::V4(IPv4Address::localhost()));
    assert_eq!(result, expected);
}

#[test]
fn host_ref_matching() {
    let host: HostRef = DomainRef::localhost().into();
    assert!(host.is_domain());
    assert!(!host.is_ip());

    let host: HostRef = IPv4Address::localhost().into();
    assert!(!host.is_domain());
    assert!(host.is_ip());
}

#[test]
fn host_to_ref() {
    let host: Host = Host::Name(Domain::localhost());
    let result: HostRef = host.to_ref();
    let expected: HostRef = HostRef::Name(DomainRef::localhost());
    assert_eq!(result, expected);

    let host: Host = Host::Address(IPAddress::V4(IPv4Address::localhost()));
    let result: HostRef = host.to_ref();
    let expected: HostRef = HostRef::Address(IPAddress::V4(IPv4Address::localhost()));
    assert_eq!(result, expected);
}

#[test]
fn host_to_authority() {
    let host: Host = Domain::localhost().to_host();
    let result: Authority = host.to_authority(80);
    let expected: Authority = Authority::new(Domain::localhost().to_host(), 80);
    assert_eq!(result, expected);

    let host: Host = IPv4Address::localhost().to_host();
    let result: Authority = host.to_authority(80);
    let expected: Authority = Authority::new(IPv4Address::localhost().to_host(), 80);
    assert_eq!(result, expected);
}

#[test]
fn ref_to_host() {
    let host: HostRef = HostRef::Name(DomainRef::localhost());
    let result: Host = host.to_host();
    let expected: Host = Host::Name(Domain::localhost());
    assert_eq!(result, expected);

    let host: HostRef = HostRef::Address(IPAddress::V4(IPv4Address::localhost()));
    let result: Host = host.to_host();
    let expected: Host = Host::Address(IPAddress::V4(IPv4Address::localhost()));
    assert_eq!(result, expected);
}

#[test]
fn host_ref_to_authority() {
    let host: HostRef = DomainRef::localhost().to_host();
    let result: AuthorityRef = host.to_authority(80);
    let expected: AuthorityRef = AuthorityRef::new(DomainRef::localhost().to_host(), 80);
    assert_eq!(result, expected);

    let host: Host = IPv4Address::localhost().to_host();
    let host: HostRef = host.to_ref();
    let result: AuthorityRef = host.to_authority(80);
    let expected: AuthorityRef = AuthorityRef::new(IPv4Address::localhost().to_host_ref(), 80);
    assert_eq!(result, expected);
}
