use vstd::prelude::*;
use vstd::std_specs::cmp::PartialEqSpecImpl;
use vstd::utf8::{encode_utf8, is_ascii_chars, is_ascii_chars_encode_utf8};

use crate::domain::domain::Domain;
use crate::domain::laws::lemma_valid_name_bytes;
use crate::domain::validation::{valid_label, valid_name};
use crate::parse::parse_error::ParseError;
use crate::text::ascii::{
    as_chars, lemma_ascii_chars, lemma_ascii_text, same_text, str_from_utf8, DOT,
};
use crate::text::split::{lemma_split_append_piece, lemma_split_single, split};

verus! {

/// A domain name borrowed from a text that outlives it.
#[derive(Copy, Clone, PartialOrd, Ord, Eq, Hash, Debug)]
pub struct DomainRef<'a> {
    name: &'a str,
}

impl<'a> View for DomainRef<'a> {
    type V = Seq<u8>;

    /// The bytes of the name.
    closed spec fn view(&self) -> Seq<u8> {
        encode_utf8(self.name@)
    }
}

impl<'a> PartialEq for DomainRef<'a> {
    fn eq(&self, other: &Self) -> (r: bool) {
        same_text(self.name.as_bytes(), other.name.as_bytes())
    }
}

impl<'a> PartialEqSpecImpl for DomainRef<'a> {
    open spec fn obeys_eq_spec() -> bool {
        true
    }

    /// Two domain references are equal where their names are, byte for byte.
    open spec fn eq_spec(&self, other: &Self) -> bool {
        self@ == other@
    }
}

impl<'a> DomainRef<'a> {
    /// Every domain reference holds a name that is valid as it stands.
    #[verifier::type_invariant]
    pub open spec fn wf(&self) -> bool {
        valid_name(self@, false)
    }

    /// The `localhost` domain reference.
    pub fn localhost() -> (r: DomainRef<'static>)
        ensures
            r@ == encode_utf8("localhost"@),
            r.wf(),
    {
        let name: &'static str = "localhost";
        proof {
            reveal_strlit("localhost");
            let chars = name@;
            assert(is_ascii_chars(chars));
            is_ascii_chars_encode_utf8(chars);
            let bytes = encode_utf8(chars);
            assert(bytes =~= seq![108u8, 111u8, 99u8, 97u8, 108u8, 104u8, 111u8, 115u8, 116u8]);
            lemma_split_single(bytes, DOT);
            assert(valid_label(bytes, false));
        }
        DomainRef { name }
    }

    /// The `example.com` domain reference.
    pub fn example() -> (r: DomainRef<'static>)
        ensures
            r@ == encode_utf8("example.com"@),
            r.wf(),
    {
        let name: &'static str = "example.com";
        proof {
            reveal_strlit("example.com");
            let chars = name@;
            assert(is_ascii_chars(chars));
            is_ascii_chars_encode_utf8(chars);
            let bytes = encode_utf8(chars);
            let first = seq![101u8, 120u8, 97u8, 109u8, 112u8, 108u8, 101u8];
            let second = seq![99u8, 111u8, 109u8];
            assert(bytes =~= first.push(DOT) + second);
            lemma_split_single(first, DOT);
            lemma_split_append_piece(first, second, DOT);
            assert(split(bytes, DOT) =~= seq![first, second]);
            assert(valid_label(first, false));
            assert(valid_label(second, false));
        }
        DomainRef { name }
    }

    /// Wraps a name that is already known to be valid.
    pub(crate) fn new(name: &'a str) -> (r: Self)
        requires
            valid_name(encode_utf8(name@), false),
        ensures
            r@ == encode_utf8(name@),
            r.wf(),
    {
        DomainRef { name }
    }

    /// Gets the name.
    pub fn name(&self) -> (r: &'a str)
        ensures
            encode_utf8(r@) == self@,
            r@ == as_chars(self@),
    {
        proof {
            use_type_invariant(self);
            lemma_valid_name_bytes(self@, false);
            lemma_ascii_chars(self.name@);
        }
        self.name
    }
}

impl<'a> TryFrom<&'a str> for DomainRef<'a> {
    type Error = ParseError;

    /// Borrows the name where it is valid as it stands; a reference folds no
    /// case.
    fn try_from(name: &'a str) -> (r: Result<Self, ParseError>)
        ensures
            match r {
                Ok(d) => valid_name(encode_utf8(name@), false) && d@ == encode_utf8(name@)
                    && d.wf(),
                Err(e) => e == ParseError::InvalidDomain && !valid_name(encode_utf8(name@), false),
            },
    {
        if Domain::is_valid_name_str(name, false) {
            Ok(DomainRef { name })
        } else {
            Err(ParseError::InvalidDomain)
        }
    }
}

impl<'a> vstd::std_specs::convert::TryFromSpecImpl<&'a str> for DomainRef<'a> {
    /// The outcome is stated by the `ensures` of `try_from`, over views.
    open spec fn obeys_try_from_spec() -> bool {
        false
    }

    open spec fn try_from_spec(v: &'a str) -> Result<Self, ParseError> {
        arbitrary()
    }
}

impl<'a> TryFrom<&'a [u8]> for DomainRef<'a> {
    type Error = ParseError;

    /// Borrows the bytes as a name where they are valid as they stand.
    fn try_from(name: &'a [u8]) -> (r: Result<Self, ParseError>)
        ensures
            match r {
                Ok(d) => valid_name(name@, false) && d@ == name@ && d.wf(),
                Err(e) => e == ParseError::InvalidDomain && !valid_name(name@, false),
            },
    {
        if Domain::is_valid_name(name, false) {
            proof {
                lemma_valid_name_bytes(name@, false);
                lemma_ascii_text(name@);
            }
            match str_from_utf8(name) {
                Some(s) => Ok(DomainRef { name: s }),
                None => Err(ParseError::InvalidDomain),
            }
        } else {
            Err(ParseError::InvalidDomain)
        }
    }
}

impl<'a> vstd::std_specs::convert::TryFromSpecImpl<&'a [u8]> for DomainRef<'a> {
    /// The outcome is stated by the `ensures` of `try_from`, over views.
    open spec fn obeys_try_from_spec() -> bool {
        false
    }

    open spec fn try_from_spec(v: &'a [u8]) -> Result<Self, ParseError> {
        arbitrary()
    }
}

} // verus!
