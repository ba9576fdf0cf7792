use address::{Authority, AuthorityRef, Domain, DomainRef, Endpoint, EndpointRef};

#[test]
fn endpoint_construction() {
    let endpoint: Endpoint = Endpoint::new(Domain::localhost(), 80);
    assert_eq!(endpoint.domain().to_domain(), Domain::localhost());
    assert_eq!(endpoint.port(), 80);

    let endpoint: Endpoint = (DomainRef::localhost(), 80).into();
    assert_eq!(endpoint.domain().to_domain(), Domain::localhost());
    assert_eq!(endpoint.port(), 80);

    let endpoint: Endpoint = EndpointRef::new(DomainRef::localhost(), 80).into();
    assert_eq!(endpoint.domain().to_domain(), Domain::localhost());
    assert_eq!(endpoint.port(), 80);
}

#[test]
fn endpoint_deconstruction() {
    let endpoint: Endpoint = Endpoint::new(Domain::localhost(), 80);

    let (domain, port) = endpoint.into();
    assert_eq!(domain, Domain::localhost());
    assert_eq!(port, 80);
}

#[test]
fn endpoint_properties() {
    let endpoint: Endpoint = (Domain::localhost(), 80).into();
    assert_eq!(endpoint.domain(), DomainRef::localhost());
    assert_eq!(endpoint.port(), 80);
}

#[test]
fn endpoint_ref_construction() {
    let result: EndpointRef = EndpointRef::new(DomainRef::localhost(), 80);
    assert_eq!(result.domain(), DomainRef::localhost());
    assert_eq!(result.port(), 80);

    let result: EndpointRef = (DomainRef::localhost(), 80).into();
    assert_eq!(result.domain(), DomainRef::localhost());
    assert_eq!(result.port(), 80);
}

#[test]
fn endpoint_ref_properties() {
    let endpoint: EndpointRef = (DomainRef::localhost(), 80).into();
    assert_eq!(endpoint.domain(), DomainRef::localhost());
    assert_eq!(endpoint.port(), 80);
}

#[test]
fn endpoint_to_ref() {
    let endpoint: Endpoint = Endpoint::new(Domain::localhost(), 80);

    let result: EndpointRef = endpoint.to_ref();
    let expected: EndpointRef = EndpointRef::new(DomainRef::localhost(), 80);
    assert_eq!(result, expected);
}

#[test]
fn endpoint_to_authority() {
    let endpoint: Endpoint = Endpoint::new(Domain::localhost(), 80);

    let result: Authority = endpoint.to_authority();
    let expected: Authority = Authority::new(Domain::localhost().to_host(), 80);
    assert_eq!(result, expected);
}

#[test]
fn ref_to_endpoint() {
    let endpoint: EndpointRef = EndpointRef::new(DomainRef::localhost(), 80);

    let result: Endpoint = endpoint.to_endpoint();
    let expected: Endpoint = Endpoint::new(Domain::localhost(), 80);
    assert_eq!(result, expected);
}

#[test]
fn ref_to_authority() {
    let endpoint: EndpointRef = EndpointRef::new(DomainRef::localhost(), 80);

    let result: AuthorityRef = endpoint.to_authority();
    let expected: AuthorityRef = AuthorityRef::new(DomainRef::localhost().to_host(), 80);
    assert_eq!(result, expected);
}
