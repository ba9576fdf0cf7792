use vstd::prelude::*;
use vstd::utf8::{
    decode_utf8, encode_utf8, encode_utf8_decode_utf8, encode_utf8_valid_utf8, is_ascii_chars,
    is_ascii_chars_encode_utf8, valid_utf8,
};

verus! {

/// `-`
pub const HYPHEN: u8 = 45;

/// `.`
pub const DOT: u8 = 46;

/// `0`
pub const DIGIT_0: u8 = 48;

/// `9`
pub const DIGIT_9: u8 = 57;

/// `:`
pub const COLON: u8 = 58;

/// `A`
pub const UPPER_A: u8 = 65;

/// `F`
pub const UPPER_F: u8 = 70;

/// `Z`
pub const UPPER_Z: u8 = 90;

/// `[`
pub const BRACKET_OPEN: u8 = 91;

/// `]`
pub const BRACKET_CLOSE: u8 = 93;

/// `a`
pub const LOWER_A: u8 = 97;

/// `f`
pub const LOWER_F: u8 = 102;

/// `z`
pub const LOWER_Z: u8 = 122;

/// Whether every byte of the text is an ASCII character.
pub open spec fn is_ascii_text(text: Seq<u8>) -> bool {
    forall|i: int| 0 <= i < text.len() ==> #[trigger] text[i] < 128
}

/// The characters that the bytes of an ASCII text stand for.
pub open spec fn as_chars(text: Seq<u8>) -> Seq<char> {
    Seq::new(text.len(), |i: int| text[i] as char)
}

/// An upper-case ASCII letter as its lower-case one, any other byte as it is.
pub open spec fn lower_byte(b: u8) -> u8 {
    if UPPER_A <= b <= UPPER_Z {
        (b + 32) as u8
    } else {
        b
    }
}

/// The text with its upper-case ASCII letters in lower case.
pub open spec fn to_lower(text: Seq<u8>) -> Seq<u8> {
    Seq::new(text.len(), |i: int| lower_byte(text[i]))
}

/// An ASCII text is the UTF-8 encoding of its own characters, and of no
/// other string.
pub proof fn lemma_ascii_text(text: Seq<u8>)
    requires
        is_ascii_text(text),
    ensures
        is_ascii_chars(as_chars(text)),
        encode_utf8(as_chars(text)) == text,
        valid_utf8(text),
        decode_utf8(text) == as_chars(text),
{
    let chars = as_chars(text);
    assert(is_ascii_chars(chars)) by {
        assert forall|i: int| 0 <= i < chars.len() implies '\0' <= #[trigger] chars[i]
            <= '\u{7f}' by {
            assert(text[i] < 128);
        }
    }
    is_ascii_chars_encode_utf8(chars);
    assert(encode_utf8(chars) =~= text) by {
        assert forall|i: int| 0 <= i < text.len() implies encode_utf8(chars)[i] == text[i] by {
            assert(chars[i] as u8 == encode_utf8(chars)[i]);
            assert(text[i] < 128);
        }
    }
    encode_utf8_valid_utf8(chars);
    encode_utf8_decode_utf8(chars);
}

/// A string whose bytes are all ASCII has those bytes for its characters.
pub proof fn lemma_ascii_chars(chars: Seq<char>)
    requires
        is_ascii_text(encode_utf8(chars)),
    ensures
        chars == as_chars(encode_utf8(chars)),
{
    lemma_ascii_text(encode_utf8(chars));
    encode_utf8_decode_utf8(chars);
}

/// `String::push` appends the one character to the string.
pub assume_specification[ String::push ](s: &mut String, c: char)
    ensures
        final(s)@ == old(s)@.push(c),
;

/// `core::str::from_utf8`: the string slice over the same bytes, which
/// exists exactly where the bytes are valid UTF-8.
#[verifier::external_body]
pub(crate) fn str_from_utf8<'a>(bytes: &'a [u8]) -> (r: Option<&'a str>)
    ensures
        r is Some <==> valid_utf8(bytes@),
        r matches Some(s) ==> encode_utf8(s@) == bytes@,
{
    core::str::from_utf8(bytes).ok()
}

/// The string that an ASCII text spells.
pub fn ascii_string(text: &[u8]) -> (r: String)
    requires
        is_ascii_text(text@),
    ensures
        r@ == as_chars(text@),
        encode_utf8(r@) == text@,
{
    let mut out = String::new();
    let mut i: usize = 0;
    while i < text.len()
        invariant
            0 <= i <= text.len(),
            out@ == as_chars(text@.take(i as int)),
        decreases text.len() - i,
    {
        out.push(text[i] as char);
        proof {
            assert(as_chars(text@.take(i as int)).push(text@[i as int] as char) =~= as_chars(
                text@.take(i as int + 1),
            ));
        }
        i += 1;
    }
    proof {
        assert(text@.take(i as int) =~= text@);
        lemma_ascii_text(text@);
    }
    out
}

/// Whether two texts are the same, byte for byte.
pub fn same_text(a: &[u8], b: &[u8]) -> (r: bool)
    ensures
        r == (a@ == b@),
{
    if a.len() != b.len() {
        return false;
    }
    let mut i: usize = 0;
    while i < a.len()
        invariant
            0 <= i <= a.len(),
            a.len() == b.len(),
            forall|j: int| 0 <= j < i ==> a@[j] == b@[j],
        decreases a.len() - i,
    {
        if a[i] != b[i] {
            return false;
        }
        i += 1;
    }
    proof {
        assert(a@ =~= b@);
    }
    true
}

/// The text with its upper-case ASCII letters in lower case.
pub fn lower_bytes(text: &[u8]) -> (r: Vec<u8>)
    ensures
        r@ == to_lower(text@),
{
    let mut out: Vec<u8> = Vec::new();
    let mut i: usize = 0;
    while i < text.len()
        invariant
            0 <= i <= text.len(),
            out@ == to_lower(text@.take(i as int)),
        decreases text.len() - i,
    {
        let b = text[i];
        let l: u8 = if b >= UPPER_A && b <= UPPER_Z {
            b + 32
        } else {
            b
        };
        out.push(l);
        proof {
            assert(to_lower(text@.take(i as int)).push(l) =~= to_lower(text@.take(i as int + 1)));
        }
        i += 1;
    }
    proof {
        assert(text@.take(i as int) =~= text@);
    }
    out
}

} // verus!
