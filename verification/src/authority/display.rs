use vstd::prelude::*;
use vstd::utf8::encode_utf8;

use crate::authority::authority::{Authority, AuthorityView};
use crate::authority::authority_ref::AuthorityRef;
use crate::host::display::{host_text, lemma_host_text_ascii};
use crate::host::host::HostView;
use crate::host::host_ref::HostRef;
use crate::ip::display::ipv6_text;
use crate::ip::ip_address::{IPAddress, IPAddressView};
use crate::parse::brackets::bracketed;
use crate::parse::parse_port::{lemma_port_text, port_text};
use crate::text::ascii::{
    as_chars, ascii_string, is_ascii_text, BRACKET_CLOSE, BRACKET_OPEN, COLON,
};
use crate::text::number::push_number;

verus! {

/// The text of a host as it stands before the colon and the port: the text
/// of an IPv6 address is put in brackets, that of any other host is not.
pub open spec fn host_part(host: HostView) -> Seq<u8> {
    match host {
        HostView::Address(IPAddressView::V6(octets)) => bracketed(ipv6_text(octets)),
        _ => host_text(host),
    }
}

/// The text of an authority: the host, an IPv6 address in brackets, then a
/// colon and the port in decimal.
pub open spec fn authority_text(authority: AuthorityView) -> Seq<u8> {
    host_part(authority.host).push(COLON) + port_text(authority.port)
}

/// The text of an authority is ASCII text.
pub proof fn lemma_authority_text_ascii(authority: AuthorityView)
    requires
        authority.wf(),
    ensures
        is_ascii_text(authority_text(authority)),
{
    lemma_host_text_ascii(authority.host);
    lemma_port_text(authority.port);
    let part = host_part(authority.host);
    let inner = host_text(authority.host);
    assert forall|i: int| 0 <= i < part.len() implies #[trigger] part[i] < 128 by {
        if authority.host matches HostView::Address(IPAddressView::V6(octets)) {
            if 0 < i < part.len() - 1 {
                assert(part[i] == inner[i - 1]);
            }
        }
    }
    let text = authority_text(authority);
    assert forall|i: int| 0 <= i < text.len() implies #[trigger] text[i] < 128 by {
        if i < part.len() {
            assert(text[i] == part[i]);
        } else if i > part.len() {
            assert(text[i] == port_text(authority.port)[i - part.len() - 1]);
        }
    }
}

impl<'a> HostRef<'a> {
    /// Appends the text of the host as it stands before a port: an IPv6
    /// address in brackets.
    pub(crate) fn push_part(&self, out: &mut Vec<u8>)
        ensures
            final(out)@ == old(out)@ + host_part(self@),
            self@.wf(),
    {
        match self {
            HostRef::Address(IPAddress::V6(ip)) => {
                proof {
                    ip.lemma_view(*ip);
                }
                out.push(BRACKET_OPEN);
                ip.push_text(out);
                out.push(BRACKET_CLOSE);
                proof {
                    assert(final(out)@ =~= old(out)@ + host_part(self@));
                }
            },
            _ => {
                self.push_text(out);
            },
        }
    }
}

impl<'a> AuthorityRef<'a> {
    /// The text of the authority.
    pub fn to_string(&self) -> (r: String)
        ensures
            r@ == as_chars(authority_text(self@)),
            encode_utf8(r@) == authority_text(self@),
            self@.wf(),
    {
        let mut out: Vec<u8> = Vec::new();
        self.host().push_part(&mut out);
        out.push(COLON);
        push_number(&mut out, self.port() as u32, 10);
        proof {
            lemma_authority_text_ascii(self@);
            assert(out@ =~= authority_text(self@));
        }
        ascii_string(out.as_slice())
    }
}

impl Authority {
    /// The text of the authority.
    pub fn to_string(&self) -> (r: String)
        ensures
            r@ == as_chars(authority_text(self@)),
            encode_utf8(r@) == authority_text(self@),
            self@.wf(),
    {
        self.to_ref().to_string()
    }
}

} // verus!
