use vstd::prelude::*;

use crate::endpoint::display::endpoint_text;
use crate::endpoint::endpoint::EndpointView;
use crate::endpoint::from_str::parse_endpoint;
use crate::parse::parse_error::ParseError;
use crate::parse::parse_port::lemma_split_port;

verus! {

/// Round trip of an endpoint: its text reads back as the endpoint.
pub proof fn lemma_endpoint_round_trip(endpoint: EndpointView)
    requires
        endpoint.wf(),
    ensures
        parse_endpoint(endpoint_text(endpoint)) == Ok::<EndpointView, ParseError>(endpoint),
{
    lemma_split_port(endpoint.domain, endpoint.port);
}

} // verus!
