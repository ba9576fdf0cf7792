use address::{Domain, DomainRef, Endpoint, EndpointRef, Host, HostRef, ParseError};
use address::ParseError::InvalidDomain;

#[test]
fn is_valid_label() {
    let test_cases: &[(&str, bool, bool)] = &[
        ("", false, false),
        ("09", true, true),
        ("az", true, true),
        ("AZ", false, true),
        ("-a", false, false),
        ("a-", false, false),
        ("a--a", true, true),
        ("a-a", true, true),
        ("a-a-a", true, true),
    ];
    for (label, expected, expected_ignore_case) in test_cases {
        let result: bool = Domain::is_valid_label_str(label, false);
        assert_eq!(result, *expected, "label={}", label);

        let result: bool = Domain::is_valid_label_str(label, true);
        assert_eq!(result, *expected_ignore_case, "label={}", label);
    }
}

#[test]
fn is_valid_name() {
    let test_cases: &[(&str, bool, bool)] = &[
        ("", false, false),
        ("09", true, true),
        ("az", true, true),
        ("AZ", false, true),
        (".a", false, false),
        ("a.", false, false),
        ("a..a", false, false),
        ("a.a", true, true),
        ("a.a.a", true, true),
        ("a-a.a-a.a-a", true, true),
    ];
    for (label, expected, expected_ignore_case) in test_cases {
        let result: bool = Domain::is_valid_name_str(label, false);
        assert_eq!(result, *expected, "label={}", label);

        let result: bool = Domain::is_valid_name_str(label, true);
        assert_eq!(result, *expected_ignore_case, "label={}", label);
    }
}

#[test]
fn domain_specials() {
    assert_eq!(Domain::localhost().name(), "localhost");
    assert_eq!(Domain::example().name(), "example.com");
}

#[test]
fn try_from_string() {
    let result: Result<Domain, (ParseError, String)> = Domain::try_from("localhost".to_string());
    assert_eq!(result.map_err(|e| e.0), Ok(Domain::localhost()));

    let result: Result<Domain, (ParseError, String)> = Domain::try_from("LocalHost".to_string());
    assert_eq!(result.map_err(|e| e.0), Ok(Domain::localhost()));

    let result: Result<Domain, (ParseError, String)> = Domain::try_from("Local!Host".to_string());
    assert_eq!(result.map_err(|e| e.0), Err(InvalidDomain));
}

#[test]
fn domain_try_from_str() {
    let result: Result<Domain, ParseError> = Domain::try_from("localhost");
    assert_eq!(result, Ok(Domain::localhost()));

    let result: Result<Domain, ParseError> = Domain::try_from("LocalHost");
    assert_eq!(result, Ok(Domain::localhost()));

    let result: Result<Domain, ParseError> = Domain::try_from("Local!Host");
    assert_eq!(result, Err(InvalidDomain));
}

#[test]
fn try_from_vec() {
    let result: Result<Domain, (ParseError, Vec<u8>)> = Domain::try_from(Vec::from("localhost"));
    assert_eq!(result.map_err(|e| e.0), Ok(Domain::localhost()));

    let result: Result<Domain, (ParseError, Vec<u8>)> = Domain::try_from(Vec::from("LocalHost"));
    assert_eq!(result.map_err(|e| e.0), Ok(Domain::localhost()));

    let result: Result<Domain, (ParseError, Vec<u8>)> = Domain::try_from(Vec::from("Local!Host"));
    assert_eq!(result.map_err(|e| e.0), Err(InvalidDomain));
}

#[test]
fn domain_try_from_slice() {
    let result: Result<Domain, ParseError> = Domain::try_from("localhost".as_bytes());
    assert_eq!(result, Ok(Domain::localhost()));

    let result: Result<Domain, ParseError> = Domain::try_from("LocalHost".as_bytes());
    assert_eq!(result, Ok(Domain::localhost()));

    let result: Result<Domain, ParseError> = Domain::try_from("Local!Host".as_bytes());
    assert_eq!(result, Err(InvalidDomain));
}

#[test]
fn from_ref() {
    let domain: DomainRef = DomainRef::localhost();

    let result: Domain = domain.into();
    let expected: Domain = Domain::localhost();
    assert_eq!(result, expected);
}

#[test]
fn domain_deconstruction() {
    let domain: Domain = Domain::localhost();

    let result: String = domain.into();
    let expected: &str = "localhost";
    assert_eq!(result, expected);
}

#[test]
fn domain_properties() {
    let domain: Domain = Domain::localhost();
    assert_eq!(domain.name(), "localhost");
}

#[test]
fn domain_ref_specials() {
    assert_eq!(DomainRef::localhost().name(), "localhost");
    assert_eq!(DomainRef::example().name(), "example.com");
}

#[test]
fn domain_ref_try_from_str() {
    let result: Result<DomainRef, ParseError> = DomainRef::try_from("localhost");
    assert_eq!(result, Ok(DomainRef::localhost()));

    let result: Result<DomainRef, ParseError> = DomainRef::try_from("LocalHost");
    assert_eq!(result, Err(InvalidDomain));
}

#[test]
fn domain_ref_try_from_slice() {
    let result: Result<DomainRef, ParseError> = DomainRef::try_from("localhost".as_bytes());
    assert_eq!(result, Ok(DomainRef::localhost()));

    let result: Result<DomainRef, ParseError> = DomainRef::try_from("LocalHost".as_bytes());
    assert_eq!(result, Err(InvalidDomain));
}

#[test]
fn domain_ref_properties() {
    let domain: DomainRef = DomainRef::localhost();
    assert_eq!(domain.name(), "localhost");
}

#[test]
fn domain_to_ref() {
    let domain: Domain = Domain::localhost();

    let result: DomainRef = domain.to_ref();
    let expected: DomainRef = DomainRef::localhost();
    assert_eq!(result, expected);
}

#[test]
fn domain_to_endpoint() {
    let domain: Domain = Domain::localhost();

    let result: Endpoint = domain.to_endpoint(80);
    let expected: Endpoint = Endpoint::new(Domain::localhost(), 80);
    assert_eq!(result, expected);
}

#[test]
fn domain_to_host() {
    let domain: Domain = Domain::localhost();

    let result: Host = domain.to_host();
    let expected: Host = Host::Name(Domain::localhost());
    assert_eq!(result, expected);
}

#[test]
fn ref_to_domain() {
    let domain: DomainRef = DomainRef::localhost();

    let result: Domain = domain.to_domain();
    let expected: Domain = Domain::localhost();
    assert_eq!(result, expected);
}

#[test]
fn conversions_ref_to_endpoint() {
    let domain: DomainRef = DomainRef::localhost();

    let result: EndpointRef = domain.to_endpoint(80);
    let expected: EndpointRef = EndpointRef::new(DomainRef::localhost(), 80);
    assert_eq!(result, expected);
}

#[test]
fn conversions_ref_to_host() {
    let domain: DomainRef = DomainRef::localhost();

    let result: HostRef = domain.to_host();
    let expected: HostRef = HostRef::Name(DomainRef::localhost());
    assert_eq!(result, expected);
}
