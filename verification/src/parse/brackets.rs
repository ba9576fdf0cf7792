use vstd::prelude::*;

use crate::text::ascii::{BRACKET_CLOSE, BRACKET_OPEN};

verus! {

/// Whether the text starts with `[` and ends with `]`.
pub open spec fn is_bracketed(text: Seq<u8>) -> bool {
    text.len() > 0 && text[0] == BRACKET_OPEN && text[text.len() - 1] == BRACKET_CLOSE
}

/// What stands between the first and the last byte of the text.
pub open spec fn inside_brackets(text: Seq<u8>) -> Seq<u8> {
    text.subrange(1, text.len() - 1)
}

/// The text between `[` and `]`.
pub open spec fn bracketed(text: Seq<u8>) -> Seq<u8> {
    (seq![BRACKET_OPEN] + text).push(BRACKET_CLOSE)
}

/// A text put in brackets is bracketed, and is what stands inside them.
pub proof fn lemma_bracketed(text: Seq<u8>)
    ensures
        is_bracketed(bracketed(text)),
        inside_brackets(bracketed(text)) == text,
{
    assert(inside_brackets(bracketed(text)) =~= text);
}

/// What stands inside the brackets of the text, if it is bracketed.
pub fn strip_brackets(text: &[u8]) -> (r: Option<&[u8]>)
    ensures
        match r {
            Some(inside) => is_bracketed(text@) && inside@ == inside_brackets(text@),
            None => !is_bracketed(text@),
        },
{
    if text.len() == 0 || text[0] != BRACKET_OPEN || text[text.len() - 1] != BRACKET_CLOSE {
        None
    } else {
        Some(&text[1..text.len() - 1])
    }
}

} // verus!
