use vstd::prelude::*;
use vstd::utf8::encode_utf8;

use crate::ip::ip_address::{IPAddress, IPAddressView};
use crate::ip::ipv4_address::IPv4Address;
use crate::ip::ipv6_address::{octets_of, IPv6Address};
use crate::parse::parse_error::ParseError;
use crate::text::ascii::{COLON, DIGIT_0, DOT};
use crate::text::number::{all_digits, lemma_hex_value_bound, number_value, parse_number};
use crate::text::split::{lemma_split_pieces, lemma_split_prefix, split};

verus! {

/// The byte that one piece of a dotted quad spells: one to three decimal
/// digits, no zero in front of another digit, and no more than 255.
pub open spec fn octet_value(piece: Seq<u8>) -> Option<u8> {
    if 1 <= piece.len() <= 3 && all_digits(piece, 10) && (piece.len() > 1 ==> piece[0] != DIGIT_0)
        && number_value(piece, 10) <= 255 {
        Some(number_value(piece, 10) as u8)
    } else {
        None
    }
}

/// The bytes of the IPv4 address that a text spells: four pieces between
/// three dots, each spelling a byte.
pub open spec fn parse_ipv4(text: Seq<u8>) -> Option<Seq<u8>> {
    let pieces = split(text, DOT);
    if pieces.len() == 4 && forall|k: int|
        0 <= k < 4 ==> octet_value(#[trigger] pieces[k]) is Some {
        Some(Seq::new(4, |k: int| octet_value(pieces[k]).unwrap()))
    } else {
        None
    }
}

/// Reads one piece of a dotted quad.
fn read_octet(piece: &[u8]) -> (r: Option<u8>)
    ensures
        r == octet_value(piece@),
{
    if piece.len() == 0 || piece.len() > 3 {
        return None;
    }
    if piece.len() > 1 && piece[0] == DIGIT_0 {
        return None;
    }
    match parse_number(piece, 10, 255) {
        Some(n) => Some(n as u8),
        None => None,
    }
}

impl IPv4Address {
    /// Reads a dotted quad.
    pub(crate) fn from_text(text: &[u8]) -> (r: Option<Self>)
        ensures
            match r {
                Some(ip) => parse_ipv4(text@) == Some(ip@),
                None => parse_ipv4(text@) is None,
            },
    {
        let mut octets: [u8; 4] = [0, 0, 0, 0];
        let mut count: usize = 0;
        let mut start: usize = 0;
        let mut i: usize = 0;
        while i < text.len()
            invariant
                0 <= start <= i <= text.len(),
                count <= 3,
                split(text@.take(i as int), DOT).len() == count + 1,
                split(text@.take(i as int), DOT).last() == text@.subrange(start as int, i as int),
                forall|k: int|
                    0 <= k < count ==> octet_value(#[trigger] split(text@.take(i as int), DOT)[k])
                        == Some(octets@[k]),
            decreases text.len() - i,
        {
            let ghost before = split(text@.take(i as int), DOT);
            let ghost after = split(text@.take(i as int + 1), DOT);
            proof {
                lemma_split_pieces(text@.take(i as int), DOT);
                assert(text@.take(i as int + 1).drop_last() =~= text@.take(i as int));
                assert(text@.take(i as int + 1).last() == text@[i as int]);
            }
            if text[i] == DOT {
                proof {
                    lemma_split_prefix(text@, i as int, DOT);
                }
                if count == 3 {
                    return None;
                }
                match read_octet(&text[start..i]) {
                    Some(b) => {
                        octets[count] = b;
                    },
                    None => {
                        proof {
                            assert(split(text@, DOT)[count as int] == before[count as int]);
                        }
                        return None;
                    },
                }
                count += 1;
                start = i + 1;
                proof {
                    assert(after.last() =~= text@.subrange(start as int, i as int + 1));
                }
            } else {
                proof {
                    assert(after.last() =~= text@.subrange(start as int, i as int + 1));
                }
            }
            i += 1;
        }
        proof {
            assert(text@.take(i as int) =~= text@);
        }
        if count != 3 {
            return None;
        }
        match read_octet(&text[start..text.len()]) {
            Some(b) => {
                octets[3] = b;
                let ip = IPv4Address::new(octets);
                proof {
                    let pieces = split(text@, DOT);
                    assert(ip@ =~= Seq::new(4, |k: int| octet_value(pieces[k]).unwrap()));
                }
                Some(ip)
            },
            None => None,
        }
    }
}

impl std::str::FromStr for IPv4Address {
    type Err = ParseError;

    /// Parses a dotted quad.
    fn from_str(s: &str) -> (r: Result<Self, ParseError>)
        ensures
            match r {
                Ok(ip) => parse_ipv4(encode_utf8(s@)) == Some(ip@),
                Err(e) => e == ParseError::InvalidIPv4Address && parse_ipv4(encode_utf8(s@))
                    is None,
            },
    {
        match Self::from_text(s.as_bytes()) {
            Some(ip) => Ok(ip),
            None => Err(ParseError::InvalidIPv4Address),
        }
    }
}

/// The segment that one piece of an IPv6 text spells: one to four
/// hexadecimal digits.
pub open spec fn hex_group(piece: Seq<u8>) -> Option<u16> {
    if 1 <= piece.len() <= 4 && all_digits(piece, 16) {
        Some(number_value(piece, 16) as u16)
    } else {
        None
    }
}

/// The two segments that the four bytes of a dotted quad fill.
pub open spec fn quad_segments(octets: Seq<u8>) -> Seq<u16> {
    seq![
        (octets[0] as int * 256 + octets[1] as int) as u16,
        (octets[2] as int * 256 + octets[3] as int) as u16,
    ]
}

/// The segments that a list of pieces with colons between them spells. Each
/// piece is a group of hexadecimal digits and spells one segment; with
/// `quad`, the last piece may be a dotted quad instead, which spells two.
pub open spec fn parse_groups(text: Seq<u8>, quad: bool) -> Option<Seq<u16>> {
    let pieces = split(text, COLON);
    let front = pieces.drop_last();
    let last = pieces.last();
    if forall|k: int| 0 <= k < front.len() ==> hex_group(#[trigger] front[k]) is Some {
        let segments = Seq::new(front.len(), |k: int| hex_group(front[k]).unwrap());
        if hex_group(last) is Some {
            Some(segments.push(hex_group(last).unwrap()))
        } else if quad && parse_ipv4(last) is Some {
            Some(segments + quad_segments(parse_ipv4(last).unwrap()))
        } else {
            None
        }
    } else {
        None
    }
}

/// Whether two colons stand at `i` and `i + 1`.
pub open spec fn double_colon_at(text: Seq<u8>, i: int) -> bool {
    0 <= i && i + 1 < text.len() && text[i] == COLON && text[i + 1] == COLON
}

/// Where the first `::` of the text starts, if it has one.
pub open spec fn first_double_colon(text: Seq<u8>) -> Option<int>
    decreases text.len(),
{
    if text.len() < 2 {
        None
    } else if text[0] == COLON && text[1] == COLON {
        Some(0)
    } else {
        match first_double_colon(text.drop_first()) {
            Some(i) => Some(i + 1),
            None => None,
        }
    }
}

/// The eight segments of the IPv6 address that a text spells. Without `::`
/// the text is a list of pieces that spell eight segments, a dotted quad
/// allowed for the last two. With `::` the pieces before the first `::` spell
/// the leading segments, the pieces after it the trailing ones, where a
/// dotted quad may stand last; together they are at most seven, and the `::`
/// stands for the zero segments between them.
pub open spec fn parse_ipv6_segments(text: Seq<u8>) -> Option<Seq<u16>> {
    match first_double_colon(text) {
        None => match parse_groups(text, true) {
            Some(segments) => if segments.len() == 8 {
                Some(segments)
            } else {
                None
            },
            None => None,
        },
        Some(i) => {
            let head = if i == 0 {
                Some(Seq::<u16>::empty())
            } else {
                parse_groups(text.take(i), false)
            };
            let tail = if i + 2 == text.len() {
                Some(Seq::<u16>::empty())
            } else {
                parse_groups(text.skip(i + 2), true)
            };
            if head is Some && tail is Some && head.unwrap().len() + tail.unwrap().len() <= 7 {
                let gap = 8 - head.unwrap().len() - tail.unwrap().len();
                Some(head.unwrap() + Seq::new(gap as nat, |k: int| 0u16) + tail.unwrap())
            } else {
                None
            }
        },
    }
}

/// The sixteen bytes of the IPv6 address that a text spells.
pub open spec fn parse_ipv6(text: Seq<u8>) -> Option<Seq<u8>> {
    match parse_ipv6_segments(text) {
        Some(segments) => Some(octets_of(segments)),
        None => None,
    }
}

/// The first `::` is a `::`, and none starts before it; where there is no
/// first one there is none at all.
pub proof fn lemma_first_double_colon(text: Seq<u8>)
    ensures
        match first_double_colon(text) {
            Some(i) => double_colon_at(text, i) && forall|j: int|
                0 <= j < i ==> !double_colon_at(text, j),
            None => forall|j: int| !double_colon_at(text, j),
        },
    decreases text.len(),
{
    if text.len() >= 2 && !(text[0] == COLON && text[1] == COLON) {
        let rest = text.drop_first();
        lemma_first_double_colon(rest);
        assert forall|j: int| double_colon_at(text, j) && j > 0 implies double_colon_at(
            rest,
            j - 1,
        ) by {}
        match first_double_colon(rest) {
            Some(i) => {
                assert(double_colon_at(text, i + 1));
                assert forall|j: int| 0 <= j < i + 1 implies !double_colon_at(text, j) by {
                    if j > 0 {
                        assert(!double_colon_at(rest, j - 1));
                    }
                }
            },
            None => {
                assert forall|j: int| !double_colon_at(text, j) by {
                    if j > 0 {
                        assert(!double_colon_at(rest, j - 1));
                    }
                }
            },
        }
    }
}

/// A `::` with none before it is the first.
pub proof fn lemma_first_double_colon_is(text: Seq<u8>, i: int)
    requires
        double_colon_at(text, i),
        forall|j: int| 0 <= j < i ==> !double_colon_at(text, j),
    ensures
        first_double_colon(text) == Some(i),
{
    lemma_first_double_colon(text);
}

/// Finds the first `::`.
fn find_double_colon(text: &[u8]) -> (r: Option<usize>)
    ensures
        match r {
            Some(i) => first_double_colon(text@) == Some(i as int) && i + 2 <= text.len(),
            None => first_double_colon(text@) is None,
        },
{
    if text.len() < 2 {
        return None;
    }
    let mut i: usize = 0;
    while i < text.len() - 1
        invariant
            i <= text.len() - 1,
            forall|j: int| 0 <= j < i ==> !double_colon_at(text@, j),
        decreases text.len() - i,
    {
        if text[i] == COLON && text[i + 1] == COLON {
            proof {
                lemma_first_double_colon_is(text@, i as int);
            }
            return Some(i);
        }
        i += 1;
    }
    proof {
        lemma_first_double_colon(text@);
    }
    None
}

/// Reads one group of hexadecimal digits.
fn read_hex_group(piece: &[u8]) -> (r: Option<u16>)
    ensures
        r == hex_group(piece@),
{
    if piece.len() == 0 || piece.len() > 4 {
        return None;
    }
    match parse_number(piece, 16, 0xFFFF) {
        Some(n) => Some(n as u16),
        None => {
            proof {
                if all_digits(piece@, 16) {
                    lemma_hex_value_bound(piece@);
                }
            }
            None
        },
    }
}

/// Reads a list of groups with colons between them.
fn read_groups(text: &[u8], quad: bool) -> (r: Option<Vec<u16>>)
    ensures
        match r {
            Some(segments) => parse_groups(text@, quad) == Some(segments@),
            None => parse_groups(text@, quad) is None,
        },
{
    let mut out: Vec<u16> = Vec::new();
    let mut start: usize = 0;
    let mut i: usize = 0;
    while i < text.len()
        invariant
            0 <= start <= i <= text.len(),
            split(text@.take(i as int), COLON).len() == out.len() + 1,
            split(text@.take(i as int), COLON).last() == text@.subrange(start as int, i as int),
            forall|k: int|
                0 <= k < out.len() ==> hex_group(#[trigger] split(text@.take(i as int), COLON)[k])
                    == Some(out@[k]),
        decreases text.len() - i,
    {
        let ghost before = split(text@.take(i as int), COLON);
        let ghost after = split(text@.take(i as int + 1), COLON);
        proof {
            lemma_split_pieces(text@.take(i as int), COLON);
            assert(text@.take(i as int + 1).drop_last() =~= text@.take(i as int));
            assert(text@.take(i as int + 1).last() == text@[i as int]);
        }
        if text[i] == COLON {
            match read_hex_group(&text[start..i]) {
                Some(segment) => {
                    out.push(segment);
                },
                None => {
                    proof {
                        lemma_split_prefix(text@, i as int, COLON);
                        let k = out.len() as int;
                        let whole = split(text@, COLON);
                        assert(whole[k] == before[k]);
                        assert(whole.drop_last()[k] == whole[k]);
                    }
                    return None;
                },
            }
            start = i + 1;
            proof {
                assert(after.last() =~= text@.subrange(start as int, i as int + 1));
            }
        } else {
            proof {
                assert(after.last() =~= text@.subrange(start as int, i as int + 1));
            }
        }
        i += 1;
    }
    proof {
        assert(text@.take(i as int) =~= text@);
    }
    let ghost pieces = split(text@, COLON);
    let ghost front = pieces.drop_last();
    proof {
        assert(out@ =~= Seq::new(front.len(), |k: int| hex_group(front[k]).unwrap()));
    }
    let last = &text[start..text.len()];
    match read_hex_group(last) {
        Some(segment) => {
            out.push(segment);
            Some(out)
        },
        None => {
            if !quad {
                return None;
            }
            match IPv4Address::from_text(last) {
                Some(ip) => {
                    let (a, b, c, d) = ip.bytes();
                    let ghost old_out = out@;
                    out.push((a as u16) * 256 + (b as u16));
                    out.push((c as u16) * 256 + (d as u16));
                    proof {
                        assert(out@ =~= old_out + quad_segments(ip@));
                    }
                    Some(out)
                },
                None => None,
            }
        },
    }
}

impl IPv6Address {
    /// Reads the text of an IPv6 address.
    pub(crate) fn from_text(text: &[u8]) -> (r: Option<Self>)
        ensures
            match r {
                Some(ip) => parse_ipv6(text@) == Some(ip@),
                None => parse_ipv6(text@) is None,
            },
    {
        let mut segments: [u16; 8] = [0, 0, 0, 0, 0, 0, 0, 0];
        match find_double_colon(text) {
            None => {
                match read_groups(text, true) {
                    Some(groups) => {
                        if groups.len() != 8 {
                            return None;
                        }
                        let mut k: usize = 0;
                        while k < 8
                            invariant
                                0 <= k <= 8,
                                groups.len() == 8,
                                forall|j: int| 0 <= j < k ==> segments@[j] == groups@[j],
                            decreases 8 - k,
                        {
                            segments[k] = groups[k];
                            k += 1;
                        }
                        proof {
                            assert(segments@ =~= groups@);
                        }
                    },
                    None => {
                        return None;
                    },
                }
            },
            Some(i) => {
                let head: Vec<u16> = if i == 0 {
                    Vec::new()
                } else {
                    proof {
                        assert(text@.subrange(0, i as int) =~= text@.take(i as int));
                    }
                    match read_groups(&text[0..i], false) {
                        Some(groups) => groups,
                        None => {
                            return None;
                        },
                    }
                };
                let tail: Vec<u16> = if i + 2 == text.len() {
                    Vec::new()
                } else {
                    proof {
                        assert(text@.subrange(i as int + 2, text@.len() as int) =~= text@.skip(
                            i as int + 2,
                        ));
                    }
                    match read_groups(&text[i + 2..text.len()], true) {
                        Some(groups) => groups,
                        None => {
                            return None;
                        },
                    }
                };
                if head.len() > 7 || tail.len() > 7 - head.len() {
                    return None;
                }
                let gap: usize = 8 - head.len() - tail.len();
                let ghost whole = head@ + Seq::new(gap as nat, |k: int| 0u16) + tail@;
                let mut k: usize = 0;
                while k < head.len()
                    invariant
                        0 <= k <= head.len() <= 7,
                        forall|j: int| 0 <= j < k ==> segments@[j] == head@[j],
                        forall|j: int| head.len() <= j < 8 ==> segments@[j] == 0,
                    decreases head.len() - k,
                {
                    segments[k] = head[k];
                    k += 1;
                }
                let mut k: usize = 0;
                while k < tail.len()
                    invariant
                        0 <= k <= tail.len(),
                        gap == 8 - head.len() - tail.len(),
                        head.len() + tail.len() <= 7,
                        forall|j: int| 0 <= j < head.len() ==> segments@[j] == head@[j],
                        forall|j: int| head.len() <= j < head.len() + gap ==> segments@[j] == 0,
                        forall|j: int| 0 <= j < k ==> segments@[head.len() + gap + j] == tail@[j],
                    decreases tail.len() - k,
                {
                    segments[head.len() + gap + k] = tail[k];
                    k += 1;
                }
                proof {
                    assert(segments@ =~= whole);
                }
            },
        }
        Some(IPv6Address::from_segments(segments))
    }
}

impl std::str::FromStr for IPv6Address {
    type Err = ParseError;

    /// Parses the text of an IPv6 address.
    fn from_str(s: &str) -> (r: Result<Self, ParseError>)
        ensures
            match r {
                Ok(ip) => parse_ipv6(encode_utf8(s@)) == Some(ip@),
                Err(e) => e == ParseError::InvalidIPv6Address && parse_ipv6(encode_utf8(s@))
                    is None,
            },
    {
        match Self::from_text(s.as_bytes()) {
            Some(ip) => Ok(ip),
            None => Err(ParseError::InvalidIPv6Address),
        }
    }
}

/// The IP address that a text spells: an IPv4 address where it is a dotted
/// quad, else an IPv6 address where it is the text of one.
pub open spec fn parse_ip(text: Seq<u8>) -> Option<IPAddressView> {
    match parse_ipv4(text) {
        Some(octets) => Some(IPAddressView::V4(octets)),
        None => match parse_ipv6(text) {
            Some(octets) => Some(IPAddressView::V6(octets)),
            None => None,
        },
    }
}

impl IPAddress {
    /// Reads the text of an IP address of either kind.
    pub(crate) fn from_text(text: &[u8]) -> (r: Option<Self>)
        ensures
            match r {
                Some(ip) => parse_ip(text@) == Some(ip@),
                None => parse_ip(text@) is None,
            },
    {
        match IPv4Address::from_text(text) {
            Some(ip) => Some(IPAddress::V4(ip)),
            None => match IPv6Address::from_text(text) {
                Some(ip) => Some(IPAddress::V6(ip)),
                None => None,
            },
        }
    }
}

impl std::str::FromStr for IPAddress {
    type Err = ParseError;

    /// Parses the text of an IP address of either kind.
    fn from_str(s: &str) -> (r: Result<Self, ParseError>)
        ensures
            match r {
                Ok(ip) => parse_ip(encode_utf8(s@)) == Some(ip@),
                Err(e) => e == ParseError::InvalidIPAddress && parse_ip(encode_utf8(s@)) is None,
            },
    {
        match Self::from_text(s.as_bytes()) {
            Some(ip) => Ok(ip),
            None => Err(ParseError::InvalidIPAddress),
        }
    }
}

} // verus!
