use vstd::prelude::*;

use crate::domain::domain::Domain;
use crate::domain::domain_ref::DomainRef;
use crate::endpoint::endpoint::{Endpoint, EndpointView};
use crate::endpoint::endpoint_ref::EndpointRef;
use crate::host::host::{Host, HostView};
use crate::host::host_ref::HostRef;

verus! {

impl Domain {
    /// Converts the domain to a domain reference.
    pub fn to_ref(&self) -> (r: DomainRef<'_>)
        ensures
            r@ == self@,
            r.wf(),
    {
        proof {
            use_type_invariant(self);
        }
        DomainRef::new(self.name())
    }

    /// Converts the domain to an endpoint with the `port`.
    pub fn to_endpoint(self, port: u16) -> (r: Endpoint)
        ensures
            r@ == (EndpointView { domain: self@, port }),
            r@.wf(),
    {
        Endpoint::new(self, port)
    }

    /// Converts the domain to a host.
    pub fn to_host(self) -> (r: Host)
        ensures
            r == Host::Name(self),
            r@ == HostView::Name(self@),
            r@.wf(),
    {
        proof {
            use_type_invariant(&self);
        }
        Host::Name(self)
    }
}

impl<'a> DomainRef<'a> {
    /// Converts the domain reference to a domain.
    pub fn to_domain(&self) -> (r: Domain)
        ensures
            r@ == self@,
            r.wf(),
    {
        proof {
            use_type_invariant(self);
        }
        Domain::new(self.name().to_owned())
    }

    /// Converts the domain reference to an endpoint reference with the `port`.
    pub fn to_endpoint(&self, port: u16) -> (r: EndpointRef<'a>)
        ensures
            r@ == (EndpointView { domain: self@, port }),
            r@.wf(),
    {
        EndpointRef::new(*self, port)
    }

    /// Converts the domain reference to a host reference.
    pub fn to_host(&self) -> (r: HostRef<'a>)
        ensures
            r == HostRef::Name(*self),
            r@ == HostView::Name(self@),
            r@.wf(),
    {
        proof {
            use_type_invariant(self);
        }
        HostRef::Name(*self)
    }
}

impl<'a> From<DomainRef<'a>> for Domain {
    fn from(domain: DomainRef<'a>) -> (r: Domain)
        ensures
            r@ == domain@,
            r.wf(),
    {
        domain.to_domain()
    }
}

impl<'a> vstd::std_specs::convert::FromSpecImpl<DomainRef<'a>> for Domain {
    /// The outcome is stated by the `ensures` of `from`, over views.
    open spec fn obeys_from_spec() -> bool {
        false
    }

    open spec fn from_spec(v: DomainRef<'a>) -> Self {
        arbitrary()
    }
}

} // verus!
