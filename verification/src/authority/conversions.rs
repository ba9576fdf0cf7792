use vstd::prelude::*;

use crate::authority::authority::Authority;
use crate::authority::authority_ref::AuthorityRef;

verus! {

impl Authority {
    /// Converts the authority to an authority reference.
    pub fn to_ref(&self) -> (r: AuthorityRef<'_>)
        ensures
            r@ == self@,
            r@.wf(),
    {
        AuthorityRef::new(self.host(), self.port())
    }
}

impl<'a> AuthorityRef<'a> {
    /// Converts the authority reference to an authority.
    pub fn to_authority(&self) -> (r: Authority)
        ensures
            r@ == self@,
            r@.wf(),
    {
        Authority::new(self.host().to_host(), self.port())
    }
}

} // verus!
