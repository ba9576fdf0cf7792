use address::{Authority, AuthorityRef, Domain, DomainRef, Host, HostRef};

#[test]
fn authority_construction() {
    let authority: Authority = Authority::new(Host::Name(Domain::localhost()), 80);
    assert_eq!(authority.host().to_host(), Host::Name(Domain::localhost()));
    assert_eq!(authority.port(), 80);

    let authority: Authority = (Domain::localhost(), 80).into();
    assert_eq!(authority.host().to_host(), Host::Name(Domain::localhost()));
    assert_eq!(authority.port(), 80);

    let authority: Authority = Authority::new(Host::Name(Domain::localhost()), 80);
    let authority: Authority = authority.to_ref().into();
    assert_eq!(authority.host().to_host(), Host::Name(Domain::localhost()));
    assert_eq!(authority.port(), 80);
}

#[test]
fn authority_deconstruction() {
    let authority: Authority = (Domain::localhost(), 80).into();
    let (host, port) = authority.into();
    assert_eq!(host, Host::Name(Domain::localhost()));
    assert_eq!(port, 80);
}

#[test]
fn authority_properties() {
    let authority: Authority = Authority::new(Host::Name(Domain::localhost()), 80);
    assert_eq!(authority.host(), HostRef::Name(DomainRef::localhost()));
    assert_eq!(authority.port(), 80);
}

#[test]
fn authority_ref_construction() {
    let authority: AuthorityRef = AuthorityRef::new(HostRef::Name(DomainRef::localhost()), 80);
    assert_eq!(authority.host(), HostRef::Name(DomainRef::localhost()));
    assert_eq!(authority.port(), 80);

    let authority: AuthorityRef = (DomainRef::localhost(), 80).into();
    assert_eq!(authority.host(), HostRef::Name(DomainRef::localhost()));
    assert_eq!(authority.port(), 80);
}

#[test]
fn authority_ref_properties() {
    let authority: AuthorityRef = AuthorityRef::new(HostRef::Name(DomainRef::localhost()), 80);
    assert_eq!(authority.host(), HostRef::Name(DomainRef::localhost()));
    assert_eq!(authority.port(), 80);
}

#[test]
fn authority_to_ref() {
    let authority: Authority = Authority::new(Host::Name(Domain::localhost()), 80);

    let result: AuthorityRef = authority.to_ref();
    let expected: AuthorityRef = AuthorityRef::new(HostRef::Name(DomainRef::localhost()), 80);
    assert_eq!(result, expected);
}

#[test]
fn conversions_ref_to_authority() {
    let host: HostRef = HostRef::Name(DomainRef::localhost());
    let authority: AuthorityRef = AuthorityRef::new(host, 80);

    let result: Authority = authority.to_authority();
    let expected: Authority = Authority::new(host.to_host(), 80);
    assert_eq!(result, expected);
}
