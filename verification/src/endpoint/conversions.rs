use vstd::prelude::*;

use crate::authority::authority::{Authority, AuthorityView};
use crate::authority::authority_ref::AuthorityRef;
use crate::domain::domain::Domain;
use crate::endpoint::endpoint::Endpoint;
use crate::endpoint::endpoint_ref::EndpointRef;
use crate::host::host::{Host, HostView};
use crate::host::host_ref::HostRef;

verus! {

impl Endpoint {
    /// Converts the endpoint to an endpoint reference.
    pub fn to_ref(&self) -> (r: EndpointRef<'_>)
        ensures
            r@ == self@,
            r@.wf(),
    {
        EndpointRef::new(self.domain(), self.port())
    }

    /// Converts the endpoint to an authority.
    pub fn to_authority(self) -> (r: Authority)
        ensures
            r@ == (AuthorityView { host: HostView::Name(self@.domain), port: self@.port }),
            r@.wf(),
    {
        let (domain, port): (Domain, u16) = self.into();
        Authority::new(Host::Name(domain), port)
    }
}

impl<'a> EndpointRef<'a> {
    /// Converts the endpoint reference to an endpoint.
    pub fn to_endpoint(&self) -> (r: Endpoint)
        ensures
            r@ == self@,
            r@.wf(),
    {
        Endpoint::new(self.domain().to_domain(), self.port())
    }

    /// Converts the endpoint reference to an authority reference.
    pub fn to_authority(&self) -> (r: AuthorityRef<'a>)
        ensures
            r@ == (AuthorityView { host: HostView::Name(self@.domain), port: self@.port }),
            r@.wf(),
    {
        AuthorityRef::new(HostRef::Name(self.domain()), self.port())
    }
}

impl<'a> From<EndpointRef<'a>> for Endpoint {
    fn from(endpoint: EndpointRef<'a>) -> (r: Endpoint)
        ensures
            r@ == endpoint@,
            r@.wf(),
    {
        endpoint.to_endpoint()
    }
}

impl<'a> vstd::std_specs::convert::FromSpecImpl<EndpointRef<'a>> for Endpoint {
    /// The outcome is stated by the `ensures` of `from`, over views.
    open spec fn obeys_from_spec() -> bool {
        false
    }

    open spec fn from_spec(v: EndpointRef<'a>) -> Self {
        arbitrary()
    }
}

} // verus!
