use vstd::prelude::*;
use vstd::std_specs::cmp::PartialEqSpecImpl;
use vstd::utf8::encode_utf8;

use crate::domain::domain_ref::DomainRef;
use crate::domain::from_str::parse_domain;
use crate::domain::laws::{lemma_folded, lemma_lower_valid, lemma_valid_name_bytes};
use crate::domain::validation::valid_name;
use crate::parse::parse_error::ParseError;
use crate::text::ascii::{
    as_chars, ascii_string, lemma_ascii_chars, lower_bytes, same_text, to_lower,
};

verus! {

/// A domain name: dot-separated labels of lower-case letters, digits and
/// hyphens.
#[derive(PartialOrd, Ord, Eq, Hash, Debug)]
pub struct Domain {
    name: String,
}

impl View for Domain {
    type V = Seq<u8>;

    /// The bytes of the name.
    closed spec fn view(&self) -> Seq<u8> {
        encode_utf8(self.name@)
    }
}

impl PartialEq for Domain {
    fn eq(&self, other: &Self) -> (r: bool) {
        same_text(self.name.as_str().as_bytes(), other.name.as_str().as_bytes())
    }
}

impl PartialEqSpecImpl for Domain {
    open spec fn obeys_eq_spec() -> bool {
        true
    }

    /// Two domains are equal where their names are, byte for byte.
    open spec fn eq_spec(&self, other: &Self) -> bool {
        self@ == other@
    }
}

impl Clone for Domain {
    fn clone(&self) -> (r: Self)
        ensures
            r@ == self@,
    {
        proof {
            use_type_invariant(self);
        }
        Domain { name: self.name.clone() }
    }
}

impl Domain {
    /// Every domain holds a name that is valid as it stands, without case
    /// folding.
    #[verifier::type_invariant]
    pub open spec fn wf(&self) -> bool {
        valid_name(self@, false)
    }

    /// Creates the `localhost` domain.
    pub fn localhost() -> (r: Self)
        ensures
            r@ == encode_utf8("localhost"@),
            r.wf(),
    {
        DomainRef::localhost().to_domain()
    }

    /// Creates the `example.com` domain.
    pub fn example() -> (r: Self)
        ensures
            r@ == encode_utf8("example.com"@),
            r.wf(),
    {
        DomainRef::example().to_domain()
    }

    /// Wraps a name that is already known to be valid.
    pub(crate) fn new(name: String) -> (r: Self)
        requires
            valid_name(encode_utf8(name@), false),
        ensures
            r@ == encode_utf8(name@),
            r.wf(),
    {
        Domain { name }
    }

    /// The domain for a text that is a valid name when case is ignored: the
    /// text with its case folded.
    pub(crate) fn fold(name: &[u8]) -> (r: Self)
        requires
            valid_name(name@, true),
        ensures
            r@ == to_lower(name@),
            r.wf(),
    {
        let lower = lower_bytes(name);
        proof {
            lemma_lower_valid(name@);
            lemma_valid_name_bytes(lower@, false);
        }
        Domain { name: ascii_string(lower.as_slice()) }
    }

    /// Gets the name.
    pub fn name(&self) -> (r: &str)
        ensures
            encode_utf8(r@) == self@,
            r@ == as_chars(self@),
    {
        proof {
            use_type_invariant(self);
            lemma_valid_name_bytes(self@, false);
            lemma_ascii_chars(self.name@);
        }
        self.name.as_str()
    }
}

impl From<Domain> for String {
    /// Gives the name up as a string.
    fn from(domain: Domain) -> (r: String)
        ensures
            encode_utf8(r@) == domain@,
    {
        domain.name
    }
}

impl vstd::std_specs::convert::FromSpecImpl<Domain> for String {
    /// The outcome is stated by the `ensures` of `from`, over views.
    open spec fn obeys_from_spec() -> bool {
        false
    }

    open spec fn from_spec(v: Domain) -> Self {
        arbitrary()
    }
}

impl TryFrom<String> for Domain {
    type Error = (ParseError, String);

    /// Takes the name as it stands where it is valid so, with its case folded
    /// where only that makes it valid, and hands it back otherwise.
    fn try_from(name: String) -> (r: Result<Self, (ParseError, String)>)
        ensures
            match r {
                Ok(d) => parse_domain(encode_utf8(name@)) == Some(d@) && d.wf(),
                Err(e) => e.0 == ParseError::InvalidDomain && e.1 == name && parse_domain(
                    encode_utf8(name@),
                ) is None,
            },
    {
        if Self::is_valid_name_str(name.as_str(), false) {
            Ok(Domain { name })
        } else if Self::is_valid_name_str(name.as_str(), true) {
            Ok(Self::fold(name.as_str().as_bytes()))
        } else {
            Err((ParseError::InvalidDomain, name))
        }
    }
}

impl vstd::std_specs::convert::TryFromSpecImpl<String> for Domain {
    /// The outcome is stated by the `ensures` of `try_from`, over views.
    open spec fn obeys_try_from_spec() -> bool {
        false
    }

    open spec fn try_from_spec(v: String) -> Result<Self, (ParseError, String)> {
        arbitrary()
    }
}

impl TryFrom<&str> for Domain {
    type Error = ParseError;

    /// Takes the name as it stands where it is valid so, and with its case
    /// folded where only that makes it valid.
    fn try_from(name: &str) -> (r: Result<Self, ParseError>)
        ensures
            match r {
                Ok(d) => parse_domain(encode_utf8(name@)) == Some(d@) && d.wf(),
                Err(e) => e == ParseError::InvalidDomain && parse_domain(encode_utf8(name@))
                    is None,
            },
    {
        if Self::is_valid_name_str(name, false) {
            Ok(Domain { name: name.to_owned() })
        } else if Self::is_valid_name_str(name, true) {
            Ok(Self::fold(name.as_bytes()))
        } else {
            Err(ParseError::InvalidDomain)
        }
    }
}

impl vstd::std_specs::convert::TryFromSpecImpl<&str> for Domain {
    /// The outcome is stated by the `ensures` of `try_from`, over views.
    open spec fn obeys_try_from_spec() -> bool {
        false
    }

    open spec fn try_from_spec(v: &str) -> Result<Self, ParseError> {
        arbitrary()
    }
}

impl TryFrom<Vec<u8>> for Domain {
    type Error = (ParseError, Vec<u8>);

    /// Takes the bytes as a name where they are valid, with their case folded
    /// where that is needed, and hands them back otherwise.
    fn try_from(name: Vec<u8>) -> (r: Result<Self, (ParseError, Vec<u8>)>)
        ensures
            match r {
                Ok(d) => parse_domain(name@) == Some(d@) && d.wf(),
                Err(e) => e.0 == ParseError::InvalidDomain && e.1 == name && parse_domain(name@)
                    is None,
            },
    {
        proof {
            lemma_folded(name@);
        }
        if Self::is_valid_name(name.as_slice(), true) {
            Ok(Self::fold(name.as_slice()))
        } else {
            Err((ParseError::InvalidDomain, name))
        }
    }
}

impl vstd::std_specs::convert::TryFromSpecImpl<Vec<u8>> for Domain {
    /// The outcome is stated by the `ensures` of `try_from`, over views.
    open spec fn obeys_try_from_spec() -> bool {
        false
    }

    open spec fn try_from_spec(v: Vec<u8>) -> Result<Self, (ParseError, Vec<u8>)> {
        arbitrary()
    }
}

impl TryFrom<&[u8]> for Domain {
    type Error = ParseError;

    /// Takes the bytes as a name where they are valid, with their case folded
    /// where that is needed.
    fn try_from(name: &[u8]) -> (r: Result<Self, ParseError>)
        ensures
            match r {
                Ok(d) => parse_domain(name@) == Some(d@) && d.wf(),
                Err(e) => e == ParseError::InvalidDomain && parse_domain(name@) is None,
            },
    {
        proof {
            lemma_folded(name@);
        }
        if Self::is_valid_name(name, true) {
            Ok(Self::fold(name))
        } else {
            Err(ParseError::InvalidDomain)
        }
    }
}

impl vstd::std_specs::convert::TryFromSpecImpl<&[u8]> for Domain {
    /// The outcome is stated by the `ensures` of `try_from`, over views.
    open spec fn obeys_try_from_spec() -> bool {
        false
    }

    open spec fn try_from_spec(v: &[u8]) -> Result<Self, ParseError> {
        arbitrary()
    }
}

} // verus!
