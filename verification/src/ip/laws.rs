use vstd::prelude::*;

use crate::ip::display::{
    decimal_pieces, groups_text, hex_pieces, ip_text, ipv4_text, ipv6_text, is_ip_text_byte,
    is_ipv4_mapped, lemma_ipv4_text_bytes, lemma_ipv6_text_bytes, lemma_longest_zero_run,
    lemma_zero_run, longest_zero_run, zero_run,
};
use crate::ip::from_str::{
    double_colon_at, first_double_colon, hex_group, lemma_first_double_colon,
    lemma_first_double_colon_is, octet_value, parse_groups, parse_ip, parse_ipv4, parse_ipv6,
    parse_ipv6_segments, quad_segments,
};
use crate::ip::ip_address::IPAddressView;
use crate::ip::ipv6_address::{lemma_segments_octets, segments_of};
use crate::text::ascii::{BRACKET_OPEN, COLON, DOT, LOWER_F};
use crate::text::number::{
    all_digits, is_dec_digit, is_digit, lemma_number_text, lemma_number_text_len, number_text,
};
use crate::text::split::{
    free_of, lemma_split_append_piece, lemma_split_covers, lemma_split_empty_piece,
    lemma_split_join, lemma_split_single, split,
};

verus! {

/// The decimal text of a byte reads back as the byte, and holds neither dot
/// nor colon.
pub proof fn lemma_octet_text(n: u8)
    ensures
        octet_value(number_text(n as nat, 10)) == Some(n),
        free_of(number_text(n as nat, 10), DOT),
        free_of(number_text(n as nat, 10), COLON),
{
    let t = number_text(n as nat, 10);
    lemma_number_text(n as nat, 10);
    lemma_number_text_len(n as nat, 10);
    assert forall|i: int| 0 <= i < t.len() implies t[i] != DOT && t[i] != COLON by {
        assert(is_digit(t[i], 10));
    }
}

/// The hexadecimal text of a segment reads back as the segment, and holds
/// neither dot nor colon.
pub proof fn lemma_hex_group_text(n: u16)
    ensures
        hex_group(number_text(n as nat, 16)) == Some(n),
        free_of(number_text(n as nat, 16), DOT),
        free_of(number_text(n as nat, 16), COLON),
        number_text(n as nat, 16).len() >= 1,
{
    let t = number_text(n as nat, 16);
    lemma_number_text(n as nat, 16);
    lemma_number_text_len(n as nat, 16);
    assert forall|i: int| 0 <= i < t.len() implies t[i] != DOT && t[i] != COLON by {
        assert(is_digit(t[i], 16));
    }
}

/// Round trip of an IPv4 address: its dotted quad reads back as its bytes.
pub proof fn lemma_ipv4_round_trip(octets: Seq<u8>)
    requires
        octets.len() == 4,
    ensures
        parse_ipv4(ipv4_text(octets)) == Some(octets),
{
    let pieces = decimal_pieces(octets);
    assert forall|k: int| 0 <= k < pieces.len() implies free_of(#[trigger] pieces[k], DOT) by {
        lemma_octet_text(octets[k]);
    }
    lemma_split_join(pieces, DOT);
    assert forall|k: int| 0 <= k < 4 implies octet_value(#[trigger] pieces[k]) == Some(
        octets[k],
    ) by {
        lemma_octet_text(octets[k]);
    }
    assert(Seq::new(4, |k: int| octet_value(pieces[k]).unwrap()) =~= octets);
}

/// A text that holds a colon is no dotted quad.
pub proof fn lemma_colon_not_ipv4(text: Seq<u8>, i: int)
    requires
        0 <= i < text.len(),
        text[i] == COLON,
    ensures
        parse_ipv4(text) is None,
{
    if parse_ipv4(text) is Some {
        let pieces = split(text, DOT);
        let holds = |b: u8| is_dec_digit(b);
        assert forall|k: int, j: int|
            0 <= k < pieces.len() && 0 <= j < pieces[k].len() implies holds(
            #[trigger] pieces[k][j],
        ) by {
            assert(octet_value(pieces[k]) is Some);
            assert(is_digit(pieces[k][j], 10));
        }
        lemma_split_covers(text, DOT, holds);
        assert(holds(text[i]));
    }
}

/// One or more segments in hexadecimal with colons between them split at the
/// colons into the hexadecimal texts, and read back as the segments.
pub proof fn lemma_groups_round_trip(segments: Seq<u16>, quad: bool)
    requires
        segments.len() >= 1,
    ensures
        split(groups_text(segments), COLON) == hex_pieces(segments),
        parse_groups(groups_text(segments), quad) == Some(segments),
{
    let pieces = hex_pieces(segments);
    assert forall|k: int| 0 <= k < pieces.len() implies free_of(#[trigger] pieces[k], COLON) by {
        lemma_hex_group_text(segments[k]);
    }
    lemma_split_join(pieces, COLON);
    let front = pieces.drop_last();
    assert forall|k: int| 0 <= k < front.len() implies hex_group(#[trigger] front[k]) == Some(
        segments[k],
    ) by {
        lemma_hex_group_text(segments[k]);
    }
    lemma_hex_group_text(segments[segments.len() - 1]);
    let values = Seq::new(front.len(), |k: int| hex_group(front[k]).unwrap());
    assert(values.push(hex_group(pieces.last()).unwrap()) =~= segments);
}

/// One or more segments in hexadecimal with colons between them neither
/// start nor end with a colon, and hold no two colons in a row.
pub proof fn lemma_groups_text_colons(segments: Seq<u16>)
    requires
        segments.len() >= 1,
    ensures
        groups_text(segments).len() >= 1,
        groups_text(segments)[0] != COLON,
        groups_text(segments)[groups_text(segments).len() - 1] != COLON,
        forall|j: int| !double_colon_at(groups_text(segments), j),
{
    let text = groups_text(segments);
    lemma_groups_round_trip(segments, false);
    assert forall|k: int| 0 <= k < hex_pieces(segments).len() implies #[trigger] hex_pieces(
        segments,
    )[k].len() >= 1 by {
        lemma_hex_group_text(segments[k]);
    }
    if text.len() == 0 {
        assert(split(text, COLON)[0].len() == 0);
    }
    if text[0] == COLON {
        lemma_split_empty_piece(text, 0, COLON);
    }
    if text[text.len() - 1] == COLON {
        lemma_split_empty_piece(text, text.len() - 1, COLON);
    }
    assert forall|j: int| !double_colon_at(text, j) by {
        if double_colon_at(text, j) {
            lemma_split_empty_piece(text, j, COLON);
        }
    }
}

/// The text of an IPv6 address holds a colon.
pub proof fn lemma_ipv6_text_colon(octets: Seq<u8>) -> (i: int)
    requires
        octets.len() == 16,
    ensures
        0 <= i < ipv6_text(octets).len(),
        ipv6_text(octets)[i] == COLON,
{
    let segments = segments_of(octets);
    let start = longest_zero_run(segments, 8);
    let run = zero_run(segments, start);
    let text = ipv6_text(octets);
    if is_ipv4_mapped(octets) {
        0
    } else if run >= 2 {
        groups_text(segments.take(start)).len() as int
    } else {
        lemma_groups_round_trip(segments, true);
        if free_of(text, COLON) {
            lemma_split_single(text, COLON);
            assert(split(text, COLON).len() == 1);
            assert(hex_pieces(segments).len() == 8);
        }
        choose|i: int| 0 <= i < text.len() && text[i] == COLON
    }
}

/// Round trip of the segments of an IPv6 address: its text reads back as
/// its eight segments.
pub proof fn lemma_ipv6_segments_round_trip(octets: Seq<u8>)
    requires
        octets.len() == 16,
    ensures
        parse_ipv6_segments(ipv6_text(octets)) == Some(segments_of(octets)),
{
    let segments = segments_of(octets);
    let start = longest_zero_run(segments, 8);
    let run = zero_run(segments, start);
    let text = ipv6_text(octets);
    lemma_longest_zero_run(segments, 8);
    lemma_zero_run(segments, start);
    if is_ipv4_mapped(octets) {
        let last = octets.subrange(12, 16);
        let quad = ipv4_text(last);
        let ffff = seq![LOWER_F, LOWER_F, LOWER_F, LOWER_F];
        lemma_ipv4_text_bytes(last);
        lemma_ipv4_round_trip(last);
        assert(text.len() >= 2 && text[0] == COLON && text[1] == COLON);
        assert(first_double_colon(text) == Some(0int));
        let tail = text.skip(2);
        assert(tail =~= ffff.push(COLON) + quad);
        assert(free_of(quad, COLON)) by {
            assert forall|i: int| 0 <= i < quad.len() implies quad[i] != COLON by {
                assert(is_dec_digit(quad[i]) || quad[i] == DOT);
            }
        }
        assert(free_of(ffff, COLON));
        lemma_split_single(ffff, COLON);
        lemma_split_append_piece(ffff, quad, COLON);
        let pieces = split(tail, COLON);
        assert(pieces =~= seq![ffff, quad]);
        assert(number_text(0xffff, 16) =~= ffff) by {
            reveal_with_fuel(number_text, 5);
        }
        lemma_hex_group_text(0xffffu16);
        assert(hex_group(quad) is None) by {
            let d = number_text(last[0] as nat, 10).len() as int;
            assert(quad[d] == DOT);
            if all_digits(quad, 16) {
                assert(is_digit(quad[d], 16));
            }
        }
        let front = pieces.drop_last();
        assert(front =~= seq![ffff]);
        let values = Seq::new(front.len(), |k: int| hex_group(front[k]).unwrap());
        assert(values =~= seq![0xffffu16]);
        assert(pieces.last() == quad);
        let tail_segments = values + quad_segments(last);
        assert(parse_groups(tail, true) == Some(tail_segments));
        assert(tail_segments.len() == 3);
        let whole = Seq::<u16>::empty() + Seq::new(5, |k: int| 0u16) + tail_segments;
        assert(whole =~= segments);
    } else if run >= 2 {
        let head_segments = segments.take(start);
        let tail_segments = segments.skip(start + run);
        let head = groups_text(head_segments);
        let tail = groups_text(tail_segments);
        let i = head.len() as int;
        assert(text =~= head + seq![COLON, COLON] + tail);
        assert(double_colon_at(text, i));
        if head_segments.len() >= 1 {
            lemma_groups_text_colons(head_segments);
            lemma_groups_round_trip(head_segments, false);
            assert forall|j: int| 0 <= j < i implies !double_colon_at(text, j) by {
                if j + 1 < i {
                    assert(!double_colon_at(head, j));
                    assert(text[j] == head[j] && text[j + 1] == head[j + 1]);
                } else {
                    assert(text[j] == head[i - 1]);
                }
            }
        } else {
            assert(hex_pieces(head_segments) =~= Seq::<Seq<u8>>::empty());
        }
        lemma_first_double_colon_is(text, i);
        assert(text.take(i) =~= head);
        assert(text.skip(i + 2) =~= tail);
        if tail_segments.len() >= 1 {
            lemma_groups_text_colons(tail_segments);
            lemma_groups_round_trip(tail_segments, true);
        } else {
            assert(hex_pieces(tail_segments) =~= Seq::<Seq<u8>>::empty());
        }
        let gap = 8 - head_segments.len() - tail_segments.len();
        assert(gap == run);
        let whole = head_segments + Seq::new(gap as nat, |k: int| 0u16) + tail_segments;
        assert(whole =~= segments);
    } else {
        lemma_groups_text_colons(segments);
        lemma_groups_round_trip(segments, true);
        lemma_first_double_colon(text);
    }
}

/// Round trip of an IPv6 address: its text reads back as its bytes.
pub proof fn lemma_ipv6_round_trip(octets: Seq<u8>)
    requires
        octets.len() == 16,
    ensures
        parse_ipv6(ipv6_text(octets)) == Some(octets),
{
    lemma_ipv6_segments_round_trip(octets);
    lemma_segments_octets(octets, segments_of(octets));
}

/// Round trip of an IP address of either kind: its text reads back as the
/// address, of the same kind.
pub proof fn lemma_ip_round_trip(ip: IPAddressView)
    requires
        ip.wf(),
    ensures
        parse_ip(ip_text(ip)) == Some(ip),
{
    match ip {
        IPAddressView::V4(octets) => {
            lemma_ipv4_round_trip(octets);
        },
        IPAddressView::V6(octets) => {
            lemma_ipv6_round_trip(octets);
            let i = lemma_ipv6_text_colon(octets);
            lemma_colon_not_ipv4(ipv6_text(octets), i);
        },
    }
}

/// A text without a colon is not the text of an IPv6 address.
pub proof fn lemma_no_colon_not_ipv6(text: Seq<u8>)
    requires
        free_of(text, COLON),
    ensures
        parse_ipv6(text) is None,
{
    lemma_first_double_colon(text);
    if first_double_colon(text) is Some {
        let i = first_double_colon(text).unwrap();
        assert(double_colon_at(text, i));
        assert(text[i] == COLON);
    }
    lemma_split_single(text, COLON);
    let pieces = split(text, COLON);
    assert(pieces.drop_last() =~= Seq::<Seq<u8>>::empty());
    let values = Seq::new(0, |k: int| hex_group(pieces.drop_last()[k]).unwrap());
    assert(values.len() == 0);
}

/// The text of an IPv6 address does not start with a bracket.
pub proof fn lemma_ipv6_text_start(octets: Seq<u8>)
    requires
        octets.len() == 16,
    ensures
        ipv6_text(octets).len() >= 2,
        ipv6_text(octets)[0] != BRACKET_OPEN,
{
    let i = lemma_ipv6_text_colon(octets);
    lemma_ipv6_text_bytes(octets);
    let text = ipv6_text(octets);
    assert(is_ip_text_byte(text[0]));
    let segments = segments_of(octets);
    let start = longest_zero_run(segments, 8);
    let run = zero_run(segments, start);
    if !is_ipv4_mapped(octets) && run < 2 {
        lemma_groups_text_colons(segments);
    }
}

} // verus!
