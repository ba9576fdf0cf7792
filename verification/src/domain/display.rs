use vstd::prelude::*;
use vstd::utf8::encode_utf8;

use crate::domain::domain::Domain;
use crate::domain::domain_ref::DomainRef;
use crate::text::ascii::as_chars;

verus! {

impl Domain {
    /// The text of the domain: its name.
    pub fn to_string(&self) -> (r: String)
        ensures
            r@ == as_chars(self@),
            encode_utf8(r@) == self@,
            self.wf(),
    {
        proof {
            use_type_invariant(self);
        }
        self.name().to_owned()
    }
}

impl<'a> DomainRef<'a> {
    /// The text of the domain: its name.
    pub fn to_string(&self) -> (r: String)
        ensures
            r@ == as_chars(self@),
            encode_utf8(r@) == self@,
            self.wf(),
    {
        proof {
            use_type_invariant(self);
        }
        self.name().to_owned()
    }
}

} // verus!
