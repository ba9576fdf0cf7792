//! Endpoints: a domain name with a port, owned as `Endpoint` and borrowed as
//! `EndpointRef`.

pub mod conversions;
pub mod display;
pub mod endpoint;
pub mod endpoint_ref;
pub mod from_str;
pub mod laws;

pub use endpoint::{Endpoint, EndpointView};
pub use endpoint_ref::EndpointRef;
