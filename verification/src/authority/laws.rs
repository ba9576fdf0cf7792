use vstd::prelude::*;

use crate::authority::authority::AuthorityView;
use crate::authority::display::{authority_text, host_part};
use crate::authority::from_str::parse_authority;
use crate::host::host::HostView;
use crate::host::laws::{lemma_host_round_trip, lemma_name_text};
use crate::ip::display::{ipv4_text, ipv6_text, lemma_ipv4_text_bytes};
use crate::ip::from_str::parse_ipv4;
use crate::ip::ip_address::IPAddressView;
use crate::ip::laws::{lemma_ip_round_trip, lemma_ipv6_round_trip, lemma_ipv6_text_start};
use crate::parse::brackets::{is_bracketed, lemma_bracketed};
use crate::parse::parse_error::ParseError;
use crate::parse::parse_port::{lemma_split_port, port_text};
use crate::text::ascii::{COLON, DOT};
use crate::text::number::is_dec_digit;

verus! {

/// A host other than an IPv6 address is written without brackets before a
/// port, and an IPv6 address within them.
pub proof fn lemma_host_part(host: HostView)
    requires
        host.wf(),
    ensures
        is_bracketed(host_part(host)) <==> host matches HostView::Address(IPAddressView::V6(_)),
{
    match host {
        HostView::Name(name) => {
            lemma_name_text(name);
        },
        HostView::Address(IPAddressView::V4(octets)) => {
            lemma_ipv4_text_bytes(octets);
            let text = ipv4_text(octets);
            assert(is_dec_digit(text[0]) || text[0]
                == DOT);
        },
        HostView::Address(IPAddressView::V6(octets)) => {
            lemma_bracketed(ipv6_text(octets));
        },
    }
}

/// Round trip of an authority: its text reads back as the authority. A
/// name that is also a dotted quad reads back as the address, so such names
/// are left out.
pub proof fn lemma_authority_round_trip(authority: AuthorityView)
    requires
        authority.wf(),
        authority.host matches HostView::Name(name) ==> parse_ipv4(name) is None,
    ensures
        parse_authority(authority_text(authority)) == Ok::<AuthorityView, ParseError>(authority),
{
    let prefix = host_part(authority.host);
    lemma_split_port(prefix, authority.port);
    lemma_host_part(authority.host);
    match authority.host {
        HostView::Address(IPAddressView::V6(octets)) => {
            lemma_bracketed(ipv6_text(octets));
            lemma_ipv6_round_trip(octets);
        },
        _ => {
            lemma_host_round_trip(authority.host);
        },
    }
}

/// The text of an IPv6 address without brackets, followed by a colon and a
/// port, is no authority: the error is `InvalidAuthority`.
pub proof fn lemma_bare_ipv6_authority(octets: Seq<u8>, port: u16)
    requires
        octets.len() == 16,
    ensures
        parse_authority(ipv6_text(octets).push(COLON) + port_text(port)) == Err::<
            AuthorityView,
            ParseError,
        >(ParseError::InvalidAuthority),
{
    let prefix = ipv6_text(octets);
    lemma_split_port(prefix, port);
    lemma_ipv6_text_start(octets);
    lemma_ip_round_trip(IPAddressView::V6(octets));
}

} // verus!
