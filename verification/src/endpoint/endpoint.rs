use vstd::prelude::*;
use vstd::std_specs::cmp::PartialEqSpecImpl;
use vstd::std_specs::convert::IntoSpec;

use crate::domain::domain::Domain;
use crate::domain::domain_ref::DomainRef;
use crate::domain::validation::valid_name;

verus! {

/// What an endpoint stands for: the bytes of a name, and a port.
pub struct EndpointView {
    /// The bytes of the domain name.
    pub domain: Seq<u8>,
    /// The port.
    pub port: u16,
}

impl EndpointView {
    /// Whether the name is valid as it stands.
    pub open spec fn wf(self) -> bool {
        valid_name(self.domain, false)
    }
}

/// A domain with an associated port.
#[derive(PartialOrd, Ord, Eq, Hash, Debug)]
pub struct Endpoint {
    domain: Domain,
    port: u16,
}

impl View for Endpoint {
    type V = EndpointView;

    closed spec fn view(&self) -> EndpointView {
        EndpointView { domain: self.domain@, port: self.port }
    }
}

impl Clone for Endpoint {
    fn clone(&self) -> (r: Self)
        ensures
            r@ == self@,
    {
        Endpoint { domain: self.domain.clone(), port: self.port }
    }
}

impl PartialEq for Endpoint {
    fn eq(&self, other: &Self) -> (r: bool) {
        self.domain == other.domain && self.port == other.port
    }
}

impl PartialEqSpecImpl for Endpoint {
    open spec fn obeys_eq_spec() -> bool {
        true
    }

    /// Two endpoints are equal where their names and their ports are.
    open spec fn eq_spec(&self, other: &Self) -> bool {
        self@ == other@
    }
}

impl Endpoint {
    /// Creates a new endpoint.
    pub fn new(domain: Domain, port: u16) -> (r: Self)
        ensures
            r@ == (EndpointView { domain: domain@, port }),
            r@.wf(),
    {
        proof {
            use_type_invariant(&domain);
        }
        Self { domain, port }
    }

    /// Gets the domain reference.
    pub fn domain(&self) -> (r: DomainRef<'_>)
        ensures
            r@ == self@.domain,
            r.wf(),
    {
        self.domain.to_ref()
    }

    /// Gets the port.
    pub fn port(&self) -> (r: u16)
        ensures
            r == self@.port,
    {
        self.port
    }
}

impl<D: Into<Domain>> From<(D, u16)> for Endpoint {
    /// The endpoint of the domain that the first part converts to, with the
    /// second part as its port.
    fn from(tuple: (D, u16)) -> (r: Endpoint)
        ensures
            r@.port == tuple.1,
            D::obeys_into_spec() ==> r@.domain == tuple.0.into_spec()@,
            r@.wf(),
    {
        Endpoint::new(tuple.0.into(), tuple.1)
    }
}

impl<D: Into<Domain>> vstd::std_specs::convert::FromSpecImpl<(D, u16)> for Endpoint {
    /// The outcome is stated by the `ensures` of `from`.
    open spec fn obeys_from_spec() -> bool {
        false
    }

    open spec fn from_spec(v: (D, u16)) -> Self {
        arbitrary()
    }
}

impl From<Endpoint> for (Domain, u16) {
    /// Takes the endpoint apart.
    fn from(endpoint: Endpoint) -> (r: (Domain, u16))
        ensures
            r.0@ == endpoint@.domain,
            r.1 == endpoint@.port,
            r.0.wf(),
    {
        proof {
            use_type_invariant(&endpoint.domain);
        }
        (endpoint.domain, endpoint.port)
    }
}

impl vstd::std_specs::convert::FromSpecImpl<Endpoint> for (Domain, u16) {
    /// The outcome is stated by the `ensures` of `from`.
    open spec fn obeys_from_spec() -> bool {
        false
    }

    open spec fn from_spec(v: Endpoint) -> Self {
        arbitrary()
    }
}

} // verus!
