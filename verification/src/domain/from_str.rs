use vstd::prelude::*;
use vstd::utf8::encode_utf8;

use crate::domain::domain::Domain;
use crate::domain::validation::valid_name;
use crate::parse::parse_error::ParseError;
use crate::text::ascii::to_lower;

verus! {

/// The name that a text stands for: the text itself where it is a valid
/// name as it stands, the text with its case folded where it is valid only
/// when case is ignored, and none otherwise.
pub open spec fn parse_domain(text: Seq<u8>) -> Option<Seq<u8>> {
    if valid_name(text, false) {
        Some(text)
    } else if valid_name(text, true) {
        Some(to_lower(text))
    } else {
        None
    }
}

impl std::str::FromStr for Domain {
    type Err = ParseError;

    /// Parses a domain name, folding its case where that is needed.
    fn from_str(s: &str) -> (r: Result<Self, ParseError>)
        ensures
            match r {
                Ok(d) => parse_domain(encode_utf8(s@)) == Some(d@) && d.wf(),
                Err(e) => e == ParseError::InvalidDomain && parse_domain(encode_utf8(s@)) is None,
            },
    {
        Domain::try_from(s)
    }
}

} // verus!
