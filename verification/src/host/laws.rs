use vstd::prelude::*;

use crate::domain::laws::lemma_valid_name_bytes;
use crate::domain::validation::{is_label_char, valid_name};
use crate::host::display::host_text;
use crate::host::from_str::parse_host;
use crate::host::host::HostView;
use crate::ip::from_str::{parse_ip, parse_ipv4};
use crate::ip::laws::{lemma_ip_round_trip, lemma_no_colon_not_ipv6};
use crate::text::ascii::{BRACKET_OPEN, COLON, DOT, HYPHEN};
use crate::text::split::free_of;

verus! {

/// A valid name holds no colon and starts with no bracket, and is the text
/// of an IP address only where it is a dotted quad.
pub proof fn lemma_name_text(name: Seq<u8>)
    requires
        valid_name(name, false),
    ensures
        free_of(name, COLON),
        name[0] != BRACKET_OPEN,
        parse_ip(name) is Some <==> parse_ipv4(name) is Some,
{
    lemma_valid_name_bytes(name, false);
    assert forall|i: int| 0 <= i < name.len() implies name[i] != COLON by {
        assert(is_label_char(name[i], false) || name[i]
            == HYPHEN || name[i] == DOT);
    }
    assert(is_label_char(name[0], false) || name[0]
        == HYPHEN || name[0] == DOT);
    lemma_no_colon_not_ipv6(name);
}

/// Round trip of a host: its text reads back as the host. A name that is
/// also a dotted quad, such as `1.2.3.4`, reads back as the address, so such
/// names are left out.
pub proof fn lemma_host_round_trip(host: HostView)
    requires
        host.wf(),
        host matches HostView::Name(name) ==> parse_ipv4(name) is None,
    ensures
        parse_host(host_text(host)) == Some(host),
{
    match host {
        HostView::Name(name) => {
            lemma_name_text(name);
        },
        HostView::Address(ip) => {
            lemma_ip_round_trip(ip);
        },
    }
}

} // verus!
