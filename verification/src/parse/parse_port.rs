use vstd::prelude::*;

use crate::parse::parse_error::ParseError;
use crate::text::ascii::COLON;
use crate::text::number::{
    bounded_number, is_digit, lemma_number_text, lemma_number_text_len, number_text, parse_number,
};

verus! {

/// The port that a text spells: decimal digits, at least one, that write a
/// number up to 65535. Zeros in front are counted as digits; a sign is none.
pub open spec fn port_value(text: Seq<u8>) -> Option<u16> {
    match bounded_number(text, 10, 65535) {
        Some(n) => Some(n as u16),
        None => None,
    }
}

/// The text before the last colon of `text`, and the port that the text
/// after that colon spells. There is none where `text` has no colon or where
/// what follows the last one spells no port.
pub open spec fn split_port(text: Seq<u8>) -> Option<(Seq<u8>, u16)> {
    match text.index_of_last(COLON) {
        Some(i) => match port_value(text.skip(i + 1)) {
            Some(port) => Some((text.take(i), port)),
            None => None,
        },
        None => None,
    }
}

/// The port in decimal, as it is written behind the colon.
pub open spec fn port_text(port: u16) -> Seq<u8> {
    number_text(port as nat, 10)
}

/// A colon with none behind it is the last.
pub proof fn lemma_last_colon(text: Seq<u8>, i: int)
    requires
        0 <= i < text.len(),
        text[i] == COLON,
        forall|j: int| i < j < text.len() ==> text[j] != COLON,
    ensures
        text.index_of_last(COLON) == Some(i),
{
    text.index_of_last_ensures(COLON);
    assert(text.contains(COLON));
}

/// A port in decimal is made of one to five digits and reads back as the
/// port.
pub proof fn lemma_port_text(port: u16)
    ensures
        port_value(port_text(port)) == Some(port),
        1 <= port_text(port).len() <= 5,
        forall|i: int|
            0 <= i < port_text(port).len() ==> is_digit(#[trigger] port_text(port)[i], 10),
{
    lemma_number_text(port as nat, 10);
    lemma_number_text_len(port as nat, 10);
}

/// Whatever stands before it, a colon and a port in decimal split off
/// again as that port.
pub proof fn lemma_split_port(prefix: Seq<u8>, port: u16)
    ensures
        split_port(prefix.push(COLON) + port_text(port)) == Some((prefix, port)),
{
    let text = prefix.push(COLON) + port_text(port);
    let i = prefix.len() as int;
    lemma_port_text(port);
    assert forall|j: int| i < j < text.len() implies text[j] != COLON by {
        assert(text[j] == port_text(port)[j - i - 1]);
        assert(is_digit(port_text(port)[j - i - 1], 10));
    }
    lemma_last_colon(text, i);
    assert(text.skip(i + 1) =~= port_text(port));
    assert(text.take(i) =~= prefix);
}

/// Parses the port from the `address`.
///
/// Returns what stands before the last colon, and the port behind it:
/// `localhost:80` gives `localhost` and 80, `:80` gives the empty text and
/// 80, while `:8x` and `80` give `InvalidPort`.
pub fn parse_port(address: &[u8]) -> (r: Result<(&[u8], u16), ParseError>)
    ensures
        match r {
            Ok(found) => split_port(address@) == Some((found.0@, found.1)),
            Err(e) => e == ParseError::InvalidPort && split_port(address@) is None,
        },
{
    let mut i: usize = address.len();
    while i > 0 && address[i - 1] != COLON
        invariant
            0 <= i <= address.len(),
            forall|j: int| i <= j < address.len() ==> address@[j] != COLON,
        decreases i,
    {
        i -= 1;
    }
    if i == 0 {
        proof {
            address@.index_of_last_ensures(COLON);
            if address@.contains(COLON) {
                let k = choose|k: int| 0 <= k < address@.len() && address@[k] == COLON;
                assert(address@[k] != COLON);
            }
        }
        return Err(ParseError::InvalidPort);
    }
    let colon: usize = i - 1;
    proof {
        lemma_last_colon(address@, colon as int);
        assert(address@.subrange(colon as int + 1, address@.len() as int) =~= address@.skip(
            colon as int + 1,
        ));
        assert(address@.subrange(0, colon as int) =~= address@.take(colon as int));
    }
    match parse_number(&address[colon + 1..address.len()], 10, 65535) {
        Some(n) => Ok((&address[0..colon], n as u16)),
        None => Err(ParseError::InvalidPort),
    }
}

} // verus!
