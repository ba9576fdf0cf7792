use vstd::prelude::*;
use vstd::std_specs::cmp::PartialEqSpecImpl;

use crate::domain::domain_ref::DomainRef;
use crate::host::host::HostView;
use crate::ip::ip_address::IPAddress;

verus! {

/// Either a domain reference or an IP address.
#[derive(Copy, Clone, PartialOrd, Ord, Eq, Hash, Debug)]
pub enum HostRef<'a> {
    /// A domain reference.
    Name(DomainRef<'a>),
    /// An IP address.
    Address(IPAddress),
}

impl<'a> View for HostRef<'a> {
    type V = HostView;

    open spec fn view(&self) -> HostView {
        match self {
            HostRef::Name(domain) => HostView::Name(domain@),
            HostRef::Address(ip) => HostView::Address(ip@),
        }
    }
}

impl<'a> PartialEq for HostRef<'a> {
    fn eq(&self, other: &Self) -> (r: bool) {
        match (self, other) {
            (HostRef::Name(a), HostRef::Name(b)) => a == b,
            (HostRef::Address(a), HostRef::Address(b)) => a == b,
            _ => false,
        }
    }
}

impl<'a> PartialEqSpecImpl for HostRef<'a> {
    open spec fn obeys_eq_spec() -> bool {
        true
    }

    /// Two hosts are equal where both are the same name or both the same address.
    open spec fn eq_spec(&self, other: &Self) -> bool {
        self@ == other@
    }
}

impl<'a> From<DomainRef<'a>> for HostRef<'a> {
    fn from(domain: DomainRef<'a>) -> (r: HostRef<'a>)
        ensures
            r == HostRef::Name(domain),
    {
        HostRef::Name(domain)
    }
}

impl<'a> vstd::std_specs::convert::FromSpecImpl<DomainRef<'a>> for HostRef<'a> {
    open spec fn obeys_from_spec() -> bool {
        true
    }

    open spec fn from_spec(v: DomainRef<'a>) -> Self {
        HostRef::Name(v)
    }
}

impl<'a, A: Into<IPAddress>> From<A> for HostRef<'a> {
    fn from(ip: A) -> (r: HostRef<'a>)
        ensures
            r is Address,
    {
        HostRef::Address(ip.into())
    }
}

impl<'a, A: Into<IPAddress>> vstd::std_specs::convert::FromSpecImpl<A> for HostRef<'a> {
    open spec fn obeys_from_spec() -> bool {
        <A as vstd::std_specs::convert::IntoSpec<IPAddress>>::obeys_into_spec()
    }

    open spec fn from_spec(v: A) -> Self {
        HostRef::Address(<A as vstd::std_specs::convert::IntoSpec<IPAddress>>::into_spec(v))
    }
}

impl<'a> HostRef<'a> {
    /// Every host reference is well formed: a name it holds is valid, and an
    /// address it holds has the bytes of its kind.
    pub(crate) fn witness(&self)
        ensures
            self@.wf(),
    {
        match self {
            HostRef::Name(domain) => {
                proof {
                    use_type_invariant(domain);
                }
            },
            HostRef::Address(ip) => {
                proof {
                    ip.lemma_view(*ip);
                }
            },
        }
    }

    /// Checks if the host is a domain.
    pub fn is_domain(&self) -> (r: bool)
        ensures
            r == (self@ is Name),
    {
        matches!(self, HostRef::Name(_))
    }

    /// Checks if the host is an IP address.
    pub fn is_ip(&self) -> (r: bool)
        ensures
            r == (self@ is Address),
    {
        matches!(self, HostRef::Address(_))
    }
}

} // verus!
