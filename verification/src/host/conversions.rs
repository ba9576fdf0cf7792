use vstd::prelude::*;

use crate::authority::authority::{Authority, AuthorityView};
use crate::authority::authority_ref::AuthorityRef;
use crate::host::host::Host;
use crate::host::host_ref::HostRef;

verus! {

impl Host {
    /// Converts the host to a host reference.
    pub fn to_ref(&self) -> (r: HostRef<'_>)
        ensures
            r@ == self@,
            r@.wf(),
    {
        self.witness();
        match self {
            Host::Name(domain) => HostRef::Name(domain.to_ref()),
            Host::Address(ip) => HostRef::Address(*ip),
        }
    }

    /// Converts the host to an authority with the `port`.
    pub fn to_authority(self, port: u16) -> (r: Authority)
        ensures
            r@ == (AuthorityView { host: self@, port }),
            r@.wf(),
    {
        Authority::new(self, port)
    }
}

impl<'a> HostRef<'a> {
    /// Converts the host reference to a host.
    pub fn to_host(&self) -> (r: Host)
        ensures
            r@ == self@,
            r@.wf(),
    {
        self.witness();
        match self {
            HostRef::Name(domain) => Host::Name(domain.to_domain()),
            HostRef::Address(ip) => Host::Address(*ip),
        }
    }

    /// Converts the host reference to an authority reference with the `port`.
    pub fn to_authority(&self, port: u16) -> (r: AuthorityRef<'a>)
        ensures
            r@ == (AuthorityView { host: self@, port }),
            r@.wf(),
    {
        AuthorityRef::new(*self, port)
    }
}

} // verus!
