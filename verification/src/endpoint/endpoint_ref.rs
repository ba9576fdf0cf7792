use vstd::prelude::*;
use vstd::std_specs::cmp::PartialEqSpecImpl;
use vstd::std_specs::convert::IntoSpec;

use crate::domain::domain_ref::DomainRef;
use crate::endpoint::endpoint::EndpointView;

verus! {

/// A domain reference with an associated port.
#[derive(Copy, Clone, PartialOrd, Ord, Eq, Hash, Debug)]
pub struct EndpointRef<'a> {
    domain: DomainRef<'a>,
    port: u16,
}

impl<'a> View for EndpointRef<'a> {
    type V = EndpointView;

    closed spec fn view(&self) -> EndpointView {
        EndpointView { domain: self.domain@, port: self.port }
    }
}

impl<'a> PartialEq for EndpointRef<'a> {
    fn eq(&self, other: &Self) -> (r: bool) {
        self.domain == other.domain && self.port == other.port
    }
}

impl<'a> PartialEqSpecImpl for EndpointRef<'a> {
    open spec fn obeys_eq_spec() -> bool {
        true
    }

    /// Two endpoints are equal where their names and their ports are.
    open spec fn eq_spec(&self, other: &Self) -> bool {
        self@ == other@
    }
}

impl<'a> EndpointRef<'a> {
    /// Creates a new endpoint reference.
    pub fn new(domain: DomainRef<'a>, port: u16) -> (r: Self)
        ensures
            r@ == (EndpointView { domain: domain@, port }),
            r@.wf(),
    {
        proof {
            use_type_invariant(&domain);
        }
        Self { domain, port }
    }

    /// Gets the domain reference.
    pub fn domain(&self) -> (r: DomainRef<'a>)
        ensures
            r@ == self@.domain,
            r.wf(),
    {
        proof {
            use_type_invariant(&self.domain);
        }
        self.domain
    }

    /// Gets the port.
    pub fn port(&self) -> (r: u16)
        ensures
            r == self@.port,
    {
        self.port
    }
}

impl<'a, D: Into<DomainRef<'a>>> From<(D, u16)> for EndpointRef<'a> {
    /// The endpoint of the domain that the first part converts to, with the
    /// second part as its port.
    fn from(tuple: (D, u16)) -> (r: EndpointRef<'a>)
        ensures
            r@.port == tuple.1,
            D::obeys_into_spec() ==> r@.domain == tuple.0.into_spec()@,
            r@.wf(),
    {
        EndpointRef::new(tuple.0.into(), tuple.1)
    }
}

impl<'a, D: Into<DomainRef<'a>>> vstd::std_specs::convert::FromSpecImpl<(D, u16)> for EndpointRef<'a> {
    /// The outcome is stated by the `ensures` of `from`.
    open spec fn obeys_from_spec() -> bool {
        false
    }

    open spec fn from_spec(v: (D, u16)) -> Self {
        arbitrary()
    }
}

} // verus!
