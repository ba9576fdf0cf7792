use vstd::prelude::*;
use vstd::utf8::encode_utf8;

use crate::domain::domain::Domain;
use crate::text::ascii::{
    DIGIT_0, DIGIT_9, DOT, HYPHEN, LOWER_A, LOWER_Z, UPPER_A, UPPER_Z,
};
use crate::text::split::{lemma_split_pieces, lemma_split_prefix, split};

verus! {

/// Whether `c` is a letter or digit that a label may hold: a lower-case
/// letter or a digit, and with `ignore_case` an upper-case letter too.
pub open spec fn is_label_char(c: u8, ignore_case: bool) -> bool {
    LOWER_A <= c <= LOWER_Z || DIGIT_0 <= c <= DIGIT_9 || (ignore_case && UPPER_A <= c <= UPPER_Z)
}

/// Whether `label` is a valid domain label: 1 to 63 bytes, each a letter, a
/// digit or a hyphen, and no hyphen first or last.
pub open spec fn valid_label(label: Seq<u8>, ignore_case: bool) -> bool {
    &&& 1 <= label.len() <= 63
    &&& label.first() != HYPHEN
    &&& label.last() != HYPHEN
    &&& forall|i: int|
        0 <= i < label.len() ==> is_label_char(#[trigger] label[i], ignore_case) || label[i]
            == HYPHEN
}

/// Whether `name` is a valid domain name: 1 to 253 bytes, and every piece
/// between its dots a valid label.
pub open spec fn valid_name(name: Seq<u8>, ignore_case: bool) -> bool {
    &&& 1 <= name.len() <= 253
    &&& forall|k: int|
        0 <= k < split(name, DOT).len() ==> valid_label(
            #[trigger] split(name, DOT)[k],
            ignore_case,
        )
}

impl Domain {
    /// The maximum length of a domain label.
    pub const MAX_LABEL_LEN: usize = 63;

    /// The maximum length of a domain name.
    pub const MAX_NAME_LEN: usize = 253;

    /// Checks if `c` is a letter or digit that a label may hold.
    fn is_valid_char(c: u8, ignore_case: bool) -> (r: bool)
        ensures
            r == is_label_char(c, ignore_case),
    {
        (c >= LOWER_A && c <= LOWER_Z) || (c >= DIGIT_0 && c <= DIGIT_9) || (ignore_case && c
            >= UPPER_A && c <= UPPER_Z)
    }

    /// Checks if the domain `label` is valid.
    pub fn is_valid_label(label: &[u8], ignore_case: bool) -> (r: bool)
        ensures
            r == valid_label(label@, ignore_case),
    {
        if label.len() == 0 || label.len() > Self::MAX_LABEL_LEN {
            return false;
        }
        if label[0] == HYPHEN || label[label.len() - 1] == HYPHEN {
            return false;
        }
        let mut i: usize = 0;
        while i < label.len()
            invariant
                0 <= i <= label.len(),
                forall|j: int|
                    0 <= j < i ==> is_label_char(#[trigger] label@[j], ignore_case) || label@[j]
                        == HYPHEN,
            decreases label.len() - i,
        {
            let c = label[i];
            if !Self::is_valid_char(c, ignore_case) && c != HYPHEN {
                return false;
            }
            i += 1;
        }
        true
    }

    /// Checks if the domain `label` is valid.
    pub fn is_valid_label_str(label: &str, ignore_case: bool) -> (r: bool)
        ensures
            r == valid_label(encode_utf8(label@), ignore_case),
    {
        Self::is_valid_label(label.as_bytes(), ignore_case)
    }

    /// Checks if the domain `name` is valid.
    pub fn is_valid_name(name: &[u8], ignore_case: bool) -> (r: bool)
        ensures
            r == valid_name(name@, ignore_case),
    {
        if name.len() == 0 || name.len() > Self::MAX_NAME_LEN {
            return false;
        }
        let mut start: usize = 0;
        let mut i: usize = 0;
        while i < name.len()
            invariant
                0 <= start <= i <= name.len(),
                split(name@.take(i as int), DOT).last() == name@.subrange(start as int, i as int),
                forall|k: int|
                    0 <= k < split(name@.take(i as int), DOT).len() - 1 ==> valid_label(
                        #[trigger] split(name@.take(i as int), DOT)[k],
                        ignore_case,
                    ),
            decreases name.len() - i,
        {
            let ghost before = split(name@.take(i as int), DOT);
            let ghost after = split(name@.take(i as int + 1), DOT);
            proof {
                lemma_split_pieces(name@.take(i as int), DOT);
                assert(name@.take(i as int + 1).drop_last() =~= name@.take(i as int));
                assert(name@.take(i as int + 1).last() == name@[i as int]);
            }
            if name[i] == DOT {
                if !Self::is_valid_label(&name[start..i], ignore_case) {
                    proof {
                        lemma_split_prefix(name@, i as int, DOT);
                        let k = before.len() - 1;
                        assert(split(name@, DOT)[k] == before[k]);
                    }
                    return false;
                }
                start = i + 1;
                proof {
                    assert(after.last() =~= name@.subrange(start as int, i as int + 1));
                }
            } else {
                proof {
                    assert(after.last() =~= name@.subrange(start as int, i as int + 1));
                }
            }
            i += 1;
        }
        proof {
            assert(name@.take(i as int) =~= name@);
            lemma_split_pieces(name@, DOT);
        }
        Self::is_valid_label(&name[start..name.len()], ignore_case)
    }

    /// Checks if the domain `name` is valid.
    pub fn is_valid_name_str(name: &str, ignore_case: bool) -> (r: bool)
        ensures
            r == valid_name(encode_utf8(name@), ignore_case),
    {
        Self::is_valid_name(name.as_bytes(), ignore_case)
    }
}

} // verus!
