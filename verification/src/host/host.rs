use vstd::prelude::*;
use vstd::std_specs::cmp::PartialEqSpecImpl;

use crate::domain::domain::Domain;
use crate::domain::validation::valid_name;
use crate::ip::ip_address::{IPAddress, IPAddressView};

verus! {

/// What a host stands for: the bytes of a name, or an IP address.
pub enum HostView {
    /// The bytes of a domain name.
    Name(Seq<u8>),
    /// An IP address.
    Address(IPAddressView),
}

impl HostView {
    /// Whether the name is valid as it stands, or the address has as many
    /// bytes as its kind has.
    pub open spec fn wf(self) -> bool {
        match self {
            HostView::Name(name) => valid_name(name, false),
            HostView::Address(ip) => ip.wf(),
        }
    }
}

/// Either a domain or an IP address.
#[derive(PartialOrd, Ord, Eq, Hash, Debug)]
pub enum Host {
    /// A domain.
    Name(Domain),
    /// An IP address.
    Address(IPAddress),
}

impl View for Host {
    type V = HostView;

    open spec fn view(&self) -> HostView {
        match self {
            Host::Name(domain) => HostView::Name(domain@),
            Host::Address(ip) => HostView::Address(ip@),
        }
    }
}

impl Clone for Host {
    fn clone(&self) -> (r: Self)
        ensures
            r@ == self@,
    {
        match self {
            Host::Name(domain) => Host::Name(domain.clone()),
            Host::Address(ip) => Host::Address(*ip),
        }
    }
}

impl PartialEq for Host {
    fn eq(&self, other: &Self) -> (r: bool) {
        match (self, other) {
            (Host::Name(a), Host::Name(b)) => a == b,
            (Host::Address(a), Host::Address(b)) => a == b,
            _ => false,
        }
    }
}

impl PartialEqSpecImpl for Host {
    open spec fn obeys_eq_spec() -> bool {
        true
    }

    /// Two hosts are equal where both are the same name or both the same address.
    open spec fn eq_spec(&self, other: &Self) -> bool {
        self@ == other@
    }
}

impl From<Domain> for Host {
    fn from(domain: Domain) -> (r: Host)
        ensures
            r == Host::Name(domain),
    {
        Host::Name(domain)
    }
}

impl vstd::std_specs::convert::FromSpecImpl<Domain> for Host {
    open spec fn obeys_from_spec() -> bool {
        true
    }

    open spec fn from_spec(v: Domain) -> Self {
        Host::Name(v)
    }
}

impl<A: Into<IPAddress>> From<A> for Host {
    fn from(ip: A) -> (r: Host)
        ensures
            r is Address,
    {
        Host::Address(ip.into())
    }
}

impl<A: Into<IPAddress>> vstd::std_specs::convert::FromSpecImpl<A> for Host {
    open spec fn obeys_from_spec() -> bool {
        <A as vstd::std_specs::convert::IntoSpec<IPAddress>>::obeys_into_spec()
    }

    open spec fn from_spec(v: A) -> Self {
        Host::Address(<A as vstd::std_specs::convert::IntoSpec<IPAddress>>::into_spec(v))
    }
}

impl Host {
    /// Every host is well formed: a name it holds is valid, and an address
    /// it holds has the bytes of its kind.
    pub(crate) fn witness(&self)
        ensures
            self@.wf(),
    {
        match self {
            Host::Name(domain) => {
                proof {
                    use_type_invariant(domain);
                }
            },
            Host::Address(ip) => {
                proof {
                    ip.lemma_view(*ip);
                }
            },
        }
    }

    /// Checks if the host is a domain.
    pub fn is_domain(&self) -> (r: bool)
        ensures
            r == (self@ is Name),
    {
        matches!(self, Host::Name(_))
    }

    /// Checks if the host is an IP address.
    pub fn is_ip(&self) -> (r: bool)
        ensures
            r == (self@ is Address),
    {
        matches!(self, Host::Address(_))
    }
}

} // verus!
