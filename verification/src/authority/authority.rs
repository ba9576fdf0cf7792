use vstd::prelude::*;
use vstd::std_specs::cmp::PartialEqSpecImpl;
use vstd::std_specs::convert::IntoSpec;

use crate::authority::authority_ref::AuthorityRef;
use crate::host::host::{Host, HostView};
use crate::host::host_ref::HostRef;

verus! {

/// What an authority stands for: a host and a port.
pub struct AuthorityView {
    /// The host.
    pub host: HostView,
    /// The port.
    pub port: u16,
}

impl AuthorityView {
    /// Whether the host is well formed.
    pub open spec fn wf(self) -> bool {
        self.host.wf()
    }
}

/// A host with an associated port.
#[derive(PartialOrd, Ord, Eq, Hash, Debug)]
pub struct Authority {
    host: Host,
    port: u16,
}

impl View for Authority {
    type V = AuthorityView;

    closed spec fn view(&self) -> AuthorityView {
        AuthorityView { host: self.host@, port: self.port }
    }
}

impl Clone for Authority {
    fn clone(&self) -> (r: Self)
        ensures
            r@ == self@,
    {
        Authority { host: self.host.clone(), port: self.port }
    }
}

impl PartialEq for Authority {
    fn eq(&self, other: &Self) -> (r: bool) {
        self.host == other.host && self.port == other.port
    }
}

impl PartialEqSpecImpl for Authority {
    open spec fn obeys_eq_spec() -> bool {
        true
    }

    /// Two authorities are equal where their hosts and their ports are.
    open spec fn eq_spec(&self, other: &Self) -> bool {
        self@ == other@
    }
}

impl Authority {
    /// Creates a new authority.
    pub fn new(host: Host, port: u16) -> (r: Self)
        ensures
            r@ == (AuthorityView { host: host@, port }),
            r@.wf(),
    {
        host.witness();
        Self { host, port }
    }

    /// Gets the host reference.
    pub fn host(&self) -> (r: HostRef<'_>)
        ensures
            r@ == self@.host,
            self@.wf(),
    {
        self.host.to_ref()
    }

    /// Gets the port.
    pub fn port(&self) -> (r: u16)
        ensures
            r == self@.port,
    {
        self.port
    }
}

impl<H: Into<Host>> From<(H, u16)> for Authority {
    /// The authority of the host that the first part converts to, with the
    /// second part as its port.
    fn from(tuple: (H, u16)) -> (r: Authority)
        ensures
            r@.port == tuple.1,
            H::obeys_into_spec() ==> r@.host == tuple.0.into_spec()@,
            r@.wf(),
    {
        Authority::new(tuple.0.into(), tuple.1)
    }
}

impl<H: Into<Host>> vstd::std_specs::convert::FromSpecImpl<(H, u16)> for Authority {
    /// The outcome is stated by the `ensures` of `from`.
    open spec fn obeys_from_spec() -> bool {
        false
    }

    open spec fn from_spec(v: (H, u16)) -> Self {
        arbitrary()
    }
}

impl<'a> From<AuthorityRef<'a>> for Authority {
    fn from(authority: AuthorityRef<'a>) -> (r: Authority)
        ensures
            r@ == authority@,
            r@.wf(),
    {
        Authority::new(authority.host().to_host(), authority.port())
    }
}

impl<'a> vstd::std_specs::convert::FromSpecImpl<AuthorityRef<'a>> for Authority {
    /// The outcome is stated by the `ensures` of `from`, over views.
    open spec fn obeys_from_spec() -> bool {
        false
    }

    open spec fn from_spec(v: AuthorityRef<'a>) -> Self {
        arbitrary()
    }
}

impl From<Authority> for (Host, u16) {
    /// Takes the authority apart.
    fn from(authority: Authority) -> (r: (Host, u16))
        ensures
            r.0@ == authority@.host,
            r.1 == authority@.port,
            authority@.wf(),
    {
        authority.host.witness();
        (authority.host, authority.port)
    }
}

impl vstd::std_specs::convert::FromSpecImpl<Authority> for (Host, u16) {
    /// The outcome is stated by the `ensures` of `from`.
    open spec fn obeys_from_spec() -> bool {
        false
    }

    open spec fn from_spec(v: Authority) -> Self {
        arbitrary()
    }
}

} // verus!
