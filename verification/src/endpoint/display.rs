use vstd::prelude::*;
use vstd::utf8::encode_utf8;

use crate::domain::laws::lemma_valid_name_bytes;
use crate::endpoint::endpoint::{Endpoint, EndpointView};
use crate::endpoint::endpoint_ref::EndpointRef;
use crate::host::host_ref::HostRef;
use crate::parse::parse_port::{lemma_port_text, port_text};
use crate::text::ascii::{as_chars, ascii_string, is_ascii_text, COLON};
use crate::text::number::push_number;

verus! {

/// The text of an endpoint: the name, a colon, and the port in decimal.
pub open spec fn endpoint_text(endpoint: EndpointView) -> Seq<u8> {
    endpoint.domain.push(COLON) + port_text(endpoint.port)
}

impl<'a> EndpointRef<'a> {
    /// The text of the endpoint.
    pub fn to_string(&self) -> (r: String)
        ensures
            r@ == as_chars(endpoint_text(self@)),
            encode_utf8(r@) == endpoint_text(self@),
            self@.wf(),
    {
        let mut out: Vec<u8> = Vec::new();
        HostRef::Name(self.domain()).push_text(&mut out);
        out.push(COLON);
        push_number(&mut out, self.port() as u32, 10);
        proof {
            lemma_valid_name_bytes(self@.domain, false);
            lemma_port_text(self@.port);
            assert(out@ =~= endpoint_text(self@));
            assert(is_ascii_text(out@));
        }
        ascii_string(out.as_slice())
    }
}

impl Endpoint {
    /// The text of the endpoint.
    pub fn to_string(&self) -> (r: String)
        ensures
            r@ == as_chars(endpoint_text(self@)),
            encode_utf8(r@) == endpoint_text(self@),
            self@.wf(),
    {
        self.to_ref().to_string()
    }
}

} // verus!
