use vstd::prelude::*;
use vstd::std_specs::cmp::PartialEqSpecImpl;
use vstd::std_specs::convert::IntoSpec;

use crate::authority::authority::AuthorityView;
use crate::host::host_ref::HostRef;

verus! {

/// A host reference with an associated port.
#[derive(Copy, Clone, PartialOrd, Ord, Eq, Hash, Debug)]
pub struct AuthorityRef<'a> {
    host: HostRef<'a>,
    port: u16,
}

impl<'a> View for AuthorityRef<'a> {
    type V = AuthorityView;

    closed spec fn view(&self) -> AuthorityView {
        AuthorityView { host: self.host@, port: self.port }
    }
}

impl<'a> PartialEq for AuthorityRef<'a> {
    fn eq(&self, other: &Self) -> (r: bool) {
        self.host == other.host && self.port == other.port
    }
}

impl<'a> PartialEqSpecImpl for AuthorityRef<'a> {
    open spec fn obeys_eq_spec() -> bool {
        true
    }

    /// Two authorities are equal where their hosts and their ports are.
    open spec fn eq_spec(&self, other: &Self) -> bool {
        self@ == other@
    }
}

impl<'a> AuthorityRef<'a> {
    /// Creates a new authority reference.
    pub fn new(host: HostRef<'a>, port: u16) -> (r: Self)
        ensures
            r@ == (AuthorityView { host: host@, port }),
            r@.wf(),
    {
        host.witness();
        Self { host, port }
    }

    /// Gets the host reference.
    pub fn host(&self) -> (r: HostRef<'a>)
        ensures
            r@ == self@.host,
            self@.wf(),
    {
        self.host.witness();
        self.host
    }

    /// Gets the port.
    pub fn port(&self) -> (r: u16)
        ensures
            r == self@.port,
    {
        self.port
    }
}

impl<'a, H: Into<HostRef<'a>>> From<(H, u16)> for AuthorityRef<'a> {
    /// The authority of the host that the first part converts to, with the
    /// second part as its port.
    fn from(tuple: (H, u16)) -> (r: AuthorityRef<'a>)
        ensures
            r@.port == tuple.1,
            H::obeys_into_spec() ==> r@.host == tuple.0.into_spec()@,
            r@.wf(),
    {
        AuthorityRef::new(tuple.0.into(), tuple.1)
    }
}

impl<'a, H: Into<HostRef<'a>>> vstd::std_specs::convert::FromSpecImpl<(H, u16)> for AuthorityRef<'a> {
    /// The outcome is stated by the `ensures` of `from`.
    open spec fn obeys_from_spec() -> bool {
        false
    }

    open spec fn from_spec(v: (H, u16)) -> Self {
        arbitrary()
    }
}

} // verus!
