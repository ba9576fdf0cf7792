use vstd::prelude::*;
use vstd::utf8::encode_utf8;

use crate::ip::ip_address::{IPAddress, IPAddressView};
use crate::ip::ipv4_address::IPv4Address;
use crate::ip::ipv6_address::{segments_of, IPv6Address};
use crate::text::ascii::{as_chars, ascii_string, is_ascii_text, COLON, DOT, LOWER_F};
use crate::text::number::{
    is_dec_digit, is_digit, is_hex_digit, lemma_number_text, lemma_number_text_len, number_text,
    push_number,
};
use crate::text::split::{join, lemma_join_bytes};

verus! {

/// The decimal texts of the bytes, one for each.
pub open spec fn decimal_pieces(octets: Seq<u8>) -> Seq<Seq<u8>> {
    Seq::new(octets.len(), |i: int| number_text(octets[i] as nat, 10))
}

/// The dotted quad of an IPv4 address: its four bytes in decimal, with dots
/// between them.
pub open spec fn ipv4_text(octets: Seq<u8>) -> Seq<u8> {
    join(decimal_pieces(octets), DOT)
}

/// A dotted quad is made of digits and dots.
pub proof fn lemma_ipv4_text_bytes(octets: Seq<u8>)
    requires
        octets.len() == 4,
    ensures
        forall|i: int|
            0 <= i < ipv4_text(octets).len() ==> is_dec_digit(
                #[trigger] ipv4_text(octets)[i],
            ) || ipv4_text(octets)[i] == DOT,
        is_ascii_text(ipv4_text(octets)),
        7 <= ipv4_text(octets).len() <= 15,
        number_text(octets[0] as nat, 10).len() < ipv4_text(octets).len(),
        ipv4_text(octets)[number_text(octets[0] as nat, 10).len() as int] == DOT,
{
    reveal_with_fuel(join, 5);
    lemma_number_text(octets[0] as nat, 10);
    lemma_number_text(octets[1] as nat, 10);
    lemma_number_text(octets[2] as nat, 10);
    lemma_number_text(octets[3] as nat, 10);
    lemma_number_text_len(octets[0] as nat, 10);
    lemma_number_text_len(octets[1] as nat, 10);
    lemma_number_text_len(octets[2] as nat, 10);
    lemma_number_text_len(octets[3] as nat, 10);
    let p = decimal_pieces(octets);
    assert(p.drop_last().drop_last().drop_last() =~= seq![p[0]]);
    assert(p.drop_last().drop_last() =~= seq![p[0], p[1]]);
    assert(p.drop_last() =~= seq![p[0], p[1], p[2]]);
    let t = ipv4_text(octets);
    assert(t =~= p[0].push(DOT) + p[1] + seq![DOT] + p[2] + seq![DOT] + p[3]);
}

impl IPv4Address {
    /// Appends the dotted quad of the address to `out`.
    pub(crate) fn push_text(&self, out: &mut Vec<u8>)
        ensures
            final(out)@ == old(out)@ + ipv4_text(self@),
    {
        let (a, b, c, d) = self.bytes();
        push_number(out, a as u32, 10);
        out.push(DOT);
        push_number(out, b as u32, 10);
        out.push(DOT);
        push_number(out, c as u32, 10);
        out.push(DOT);
        push_number(out, d as u32, 10);
        proof {
            reveal_with_fuel(join, 5);
            let p = decimal_pieces(self@);
            assert(p.drop_last().drop_last().drop_last() =~= seq![p[0]]);
            assert(p.drop_last().drop_last() =~= seq![p[0], p[1]]);
            assert(p.drop_last() =~= seq![p[0], p[1], p[2]]);
            assert(final(out)@ =~= old(out)@ + ipv4_text(self@));
        }
    }

    /// The dotted quad of the address.
    pub fn to_string(&self) -> (r: String)
        ensures
            r@ == as_chars(ipv4_text(self@)),
            encode_utf8(r@) == ipv4_text(self@),
    {
        let mut out: Vec<u8> = Vec::new();
        self.push_text(&mut out);
        proof {
            self.lemma_view(*self);
            lemma_ipv4_text_bytes(self@);
            assert(out@ =~= ipv4_text(self@));
        }
        ascii_string(out.as_slice())
    }
}

/// The hexadecimal texts of the segments, one for each.
pub open spec fn hex_pieces(segments: Seq<u16>) -> Seq<Seq<u8>> {
    Seq::new(segments.len(), |i: int| number_text(segments[i] as nat, 16))
}

/// The segments in hexadecimal with colons between them; nothing for no
/// segments.
pub open spec fn groups_text(segments: Seq<u16>) -> Seq<u8> {
    join(hex_pieces(segments), COLON)
}

/// How many segments from `start` on are zero without a break.
pub open spec fn zero_run(segments: Seq<u16>, start: int) -> int
    decreases segments.len() - start,
{
    if start < 0 || start >= segments.len() || segments[start] != 0 {
        0
    } else {
        1 + zero_run(segments, start + 1)
    }
}

/// Where, among the first `upto` segments, the longest run of zero segments
/// starts; the first of them where several are as long.
pub open spec fn longest_zero_run(segments: Seq<u16>, upto: int) -> int
    decreases upto,
{
    if upto <= 1 {
        0
    } else {
        let before = longest_zero_run(segments, upto - 1);
        if zero_run(segments, upto - 1) > zero_run(segments, before) {
            upto - 1
        } else {
            before
        }
    }
}

/// Whether the sixteen bytes are an IPv4 address mapped into IPv6
/// (`::ffff:a.b.c.d`): ten zero bytes, then two of 255.
pub open spec fn is_ipv4_mapped(octets: Seq<u8>) -> bool {
    &&& forall|i: int| 0 <= i < 10 ==> octets[i] == 0
    &&& octets[10] == 255
    &&& octets[11] == 255
}

/// The text `::ffff:` that stands before the dotted quad of a mapped address.
pub open spec fn mapped_prefix() -> Seq<u8> {
    seq![COLON, COLON, LOWER_F, LOWER_F, LOWER_F, LOWER_F, COLON]
}

/// The text of an IPv6 address. A mapped IPv4 address is written as
/// `::ffff:` and its dotted quad. Otherwise the eight segments are written in
/// hexadecimal with colons between them, and the longest run of two or more
/// zero segments, the first such in a tie, is written as `::`.
pub open spec fn ipv6_text(octets: Seq<u8>) -> Seq<u8> {
    let segments = segments_of(octets);
    let start = longest_zero_run(segments, 8);
    let run = zero_run(segments, start);
    if is_ipv4_mapped(octets) {
        mapped_prefix() + ipv4_text(octets.subrange(12, 16))
    } else if run >= 2 {
        groups_text(segments.take(start)) + seq![COLON, COLON] + groups_text(
            segments.skip(start + run),
        )
    } else {
        groups_text(segments)
    }
}

/// Whether `b` may stand in the text of an IP address: a hexadecimal digit,
/// a colon or a dot.
pub open spec fn is_ip_text_byte(b: u8) -> bool {
    is_hex_digit(b) || b == COLON || b == DOT
}

/// Segments in hexadecimal with colons between them are made of hexadecimal
/// digits and colons.
pub proof fn lemma_groups_text_bytes(segments: Seq<u16>)
    ensures
        forall|i: int|
            0 <= i < groups_text(segments).len() ==> is_ip_text_byte(
                #[trigger] groups_text(segments)[i],
            ),
{
    let pieces = hex_pieces(segments);
    let holds = |b: u8| is_ip_text_byte(b);
    assert forall|k: int, j: int| 0 <= k < pieces.len() && 0 <= j < pieces[k].len() implies holds(
        #[trigger] pieces[k][j],
    ) by {
        lemma_number_text(segments[k] as nat, 16);
        assert(is_digit(pieces[k][j], 16));
    }
    lemma_join_bytes(pieces, COLON, holds);
    assert forall|i: int| 0 <= i < groups_text(segments).len() implies is_ip_text_byte(
        #[trigger] groups_text(segments)[i],
    ) by {
        assert(holds(join(pieces, COLON)[i]));
    }
}

/// The text of an IPv6 address is made of hexadecimal digits, colons and
/// dots.
pub proof fn lemma_ipv6_text_bytes(octets: Seq<u8>)
    requires
        octets.len() == 16,
    ensures
        forall|i: int|
            0 <= i < ipv6_text(octets).len() ==> is_ip_text_byte(#[trigger] ipv6_text(octets)[i]),
        is_ascii_text(ipv6_text(octets)),
{
    let segments = segments_of(octets);
    let start = longest_zero_run(segments, 8);
    let run = zero_run(segments, start);
    let text = ipv6_text(octets);
    lemma_groups_text_bytes(segments);
    lemma_groups_text_bytes(segments.take(start));
    lemma_groups_text_bytes(segments.skip(start + run));
    lemma_ipv4_text_bytes(octets.subrange(12, 16));
    assert forall|i: int| 0 <= i < text.len() implies is_ip_text_byte(#[trigger] text[i]) by {
        if is_ipv4_mapped(octets) {
            let quad = ipv4_text(octets.subrange(12, 16));
            if i >= 7 {
                assert(text[i] == quad[i - 7]);
            }
        } else if run >= 2 {
            let head = groups_text(segments.take(start));
            let tail = groups_text(segments.skip(start + run));
            if i < head.len() {
                assert(text[i] == head[i]);
            } else if i >= head.len() + 2 {
                assert(text[i] == tail[i - head.len() - 2]);
            }
        }
    }
}

/// A run of zero segments is made of zero segments and ends within the
/// segments.
pub proof fn lemma_zero_run(segments: Seq<u16>, start: int)
    requires
        0 <= start <= segments.len(),
    ensures
        0 <= zero_run(segments, start) <= segments.len() - start,
        forall|k: int|
            start <= k < start + zero_run(segments, start) ==> #[trigger] segments[k] == 0,
    decreases segments.len() - start,
{
    if start < segments.len() && segments[start] == 0 {
        lemma_zero_run(segments, start + 1);
    }
}

/// The longest run starts among the segments.
pub proof fn lemma_longest_zero_run(segments: Seq<u16>, upto: int)
    requires
        1 <= upto <= segments.len(),
    ensures
        0 <= longest_zero_run(segments, upto) < upto,
    decreases upto,
{
    if upto > 1 {
        lemma_longest_zero_run(segments, upto - 1);
    }
}

/// How long the run of zero segments from `start` on is.
fn zero_run_at(segments: &[u16; 8], start: usize) -> (r: usize)
    requires
        start <= 8,
    ensures
        r == zero_run(segments@, start as int),
        start + r <= 8,
{
    let mut end: usize = start;
    while end < 8 && segments[end] == 0
        invariant
            start <= end <= 8,
            zero_run(segments@, start as int) == (end - start) + zero_run(segments@, end as int),
        decreases 8 - end,
    {
        end += 1;
    }
    end - start
}

/// Where the longest run of zero segments starts, and how long it is.
fn find_zero_run(segments: &[u16; 8]) -> (r: (usize, usize))
    ensures
        r.0 == longest_zero_run(segments@, 8),
        r.1 == zero_run(segments@, r.0 as int),
        r.0 + r.1 <= 8,
        r.0 < 8,
{
    let mut best: usize = 0;
    let mut best_len: usize = zero_run_at(segments, 0);
    let mut i: usize = 1;
    while i < 8
        invariant
            1 <= i <= 8,
            best < i,
            best == longest_zero_run(segments@, i as int),
            best_len == zero_run(segments@, best as int),
            best + best_len <= 8,
        decreases 8 - i,
    {
        let len = zero_run_at(segments, i);
        if len > best_len {
            best = i;
            best_len = len;
        }
        i += 1;
    }
    (best, best_len)
}

/// Appends the segments from `from` up to `to` in hexadecimal, with colons
/// between them.
fn push_groups(out: &mut Vec<u8>, segments: &[u16; 8], from: usize, to: usize)
    requires
        from <= to <= 8,
    ensures
        final(out)@ == old(out)@ + groups_text(segments@.subrange(from as int, to as int)),
{
    let mut k: usize = from;
    proof {
        assert(hex_pieces(segments@.subrange(from as int, from as int)) =~= Seq::<
            Seq<u8>,
        >::empty());
        assert(old(out)@ + Seq::<u8>::empty() =~= old(out)@);
    }
    while k < to
        invariant
            from <= k <= to <= 8,
            out@ == old(out)@ + groups_text(segments@.subrange(from as int, k as int)),
        decreases to - k,
    {
        let ghost before = hex_pieces(segments@.subrange(from as int, k as int));
        let ghost after = hex_pieces(segments@.subrange(from as int, k as int + 1));
        let ghost mid = out@;
        if k > from {
            out.push(COLON);
        }
        push_number(out, segments[k] as u32, 16);
        proof {
            assert(after.drop_last() =~= before);
            assert(after.last() == number_text(segments@[k as int] as nat, 16));
            if k > from {
                assert(out@ =~= old(out)@ + (join(before, COLON).push(COLON) + after.last()));
            } else {
                assert(join(before, COLON) =~= Seq::<u8>::empty());
                assert(out@ =~= old(out)@ + after.last());
            }
        }
        k += 1;
    }
}

impl IPv6Address {
    /// Appends the text of the address to `out`.
    pub(crate) fn push_text(&self, out: &mut Vec<u8>)
        ensures
            final(out)@ == old(out)@ + ipv6_text(self@),
    {
        let a = self.address();
        let segments = self.segments();
        proof {
            self.lemma_view(*self);
        }
        if a[0] == 0 && a[1] == 0 && a[2] == 0 && a[3] == 0 && a[4] == 0 && a[5] == 0 && a[6] == 0
            && a[7] == 0 && a[8] == 0 && a[9] == 0 && a[10] == 255 && a[11] == 255 {
            out.push(COLON);
            out.push(COLON);
            out.push(LOWER_F);
            out.push(LOWER_F);
            out.push(LOWER_F);
            out.push(LOWER_F);
            out.push(COLON);
            let quad = IPv4Address::new([a[12], a[13], a[14], a[15]]);
            quad.push_text(out);
            proof {
                assert(is_ipv4_mapped(self@));
                assert(quad@ =~= self@.subrange(12, 16));
                assert(final(out)@ =~= old(out)@ + ipv6_text(self@));
            }
        } else {
            let (start, run) = find_zero_run(&segments);
            if run >= 2 {
                push_groups(out, &segments, 0, start);
                out.push(COLON);
                out.push(COLON);
                push_groups(out, &segments, start + run, 8);
                proof {
                    assert(segments@.subrange(0, start as int) =~= segments@.take(start as int));
                    assert(segments@.subrange(start as int + run as int, 8) =~= segments@.skip(
                        start as int + run as int,
                    ));
                    assert(final(out)@ =~= old(out)@ + ipv6_text(self@));
                }
            } else {
                push_groups(out, &segments, 0, 8);
                proof {
                    assert(segments@.subrange(0, 8) =~= segments@);
                }
            }
        }
    }

    /// The text of the address.
    pub fn to_string(&self) -> (r: String)
        ensures
            r@ == as_chars(ipv6_text(self@)),
            encode_utf8(r@) == ipv6_text(self@),
    {
        let mut out: Vec<u8> = Vec::new();
        self.push_text(&mut out);
        proof {
            self.lemma_view(*self);
            lemma_ipv6_text_bytes(self@);
            assert(out@ =~= ipv6_text(self@));
        }
        ascii_string(out.as_slice())
    }
}

/// The text of an IP address of either kind.
pub open spec fn ip_text(ip: IPAddressView) -> Seq<u8> {
    match ip {
        IPAddressView::V4(octets) => ipv4_text(octets),
        IPAddressView::V6(octets) => ipv6_text(octets),
    }
}

impl IPAddress {
    /// Appends the text of the address to `out`.
    pub(crate) fn push_text(&self, out: &mut Vec<u8>)
        ensures
            final(out)@ == old(out)@ + ip_text(self@),
    {
        match self {
            IPAddress::V4(ip) => ip.push_text(out),
            IPAddress::V6(ip) => ip.push_text(out),
        }
    }

    /// The text of the address.
    pub fn to_string(&self) -> (r: String)
        ensures
            r@ == as_chars(ip_text(self@)),
            encode_utf8(r@) == ip_text(self@),
    {
        match self {
            IPAddress::V4(ip) => ip.to_string(),
            IPAddress::V6(ip) => ip.to_string(),
        }
    }
}

} // verus!
