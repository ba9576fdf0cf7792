use vstd::prelude::*;
use vstd::utf8::encode_utf8;

use crate::domain::laws::lemma_valid_name_bytes;
use crate::host::host::{Host, HostView};
use crate::host::host_ref::HostRef;
use crate::ip::display::{ip_text, lemma_ipv4_text_bytes, lemma_ipv6_text_bytes};
use crate::ip::ip_address::IPAddressView;
use crate::text::ascii::{as_chars, ascii_string, is_ascii_text};

verus! {

/// The text of a host: the name itself, or the text of the address.
pub open spec fn host_text(host: HostView) -> Seq<u8> {
    match host {
        HostView::Name(name) => name,
        HostView::Address(ip) => ip_text(ip),
    }
}

/// The text of a host is ASCII text.
pub proof fn lemma_host_text_ascii(host: HostView)
    requires
        host.wf(),
    ensures
        is_ascii_text(host_text(host)),
{
    match host {
        HostView::Name(name) => {
            lemma_valid_name_bytes(name, false);
        },
        HostView::Address(ip) => {
            match ip {
                IPAddressView::V4(octets) => {
                    lemma_ipv4_text_bytes(octets);
                },
                IPAddressView::V6(octets) => {
                    lemma_ipv6_text_bytes(octets);
                },
            }
        },
    }
}

impl<'a> HostRef<'a> {
    /// Appends the text of the host to `out`.
    pub(crate) fn push_text(&self, out: &mut Vec<u8>)
        ensures
            final(out)@ == old(out)@ + host_text(self@),
            self@.wf(),
    {
        match self {
            HostRef::Name(domain) => {
                proof {
                    use_type_invariant(domain);
                }
                let name = domain.name().as_bytes();
                let mut i: usize = 0;
                while i < name.len()
                    invariant
                        0 <= i <= name.len(),
                        out@ == old(out)@ + name@.take(i as int),
                    decreases name.len() - i,
                {
                    out.push(name[i]);
                    proof {
                        assert(name@.take(i as int).push(name@[i as int]) =~= name@.take(
                            i as int + 1,
                        ));
                    }
                    i += 1;
                }
                proof {
                    assert(name@.take(i as int) =~= name@);
                }
            },
            HostRef::Address(ip) => {
                proof {
                    ip.lemma_view(*ip);
                }
                ip.push_text(out);
            },
        }
    }

    /// The text of the host.
    pub fn to_string(&self) -> (r: String)
        ensures
            r@ == as_chars(host_text(self@)),
            encode_utf8(r@) == host_text(self@),
            self@.wf(),
    {
        let mut out: Vec<u8> = Vec::new();
        self.push_text(&mut out);
        proof {
            lemma_host_text_ascii(self@);
            assert(out@ =~= host_text(self@));
        }
        ascii_string(out.as_slice())
    }
}

impl Host {
    /// The text of the host.
    pub fn to_string(&self) -> (r: String)
        ensures
            r@ == as_chars(host_text(self@)),
            encode_utf8(r@) == host_text(self@),
            self@.wf(),
    {
        self.to_ref().to_string()
    }
}

} // verus!
