//! Typed network addresses: domain names, IPv4 and IPv6 addresses, hosts,
//! endpoints, authorities and socket addresses, each with a strict textual
//! grammar, a parser and a canonical rendering.
//!
//! Every grammar is stated once, as a spec function over the bytes of the
//! text, and the parsers and renderers are verified against it. The laws that
//! tie parsing and rendering together are proved in the `laws` modules.

pub mod authority;
pub mod domain;
pub mod endpoint;
pub mod host;
pub mod ip;
pub mod parse;
pub mod socket;
pub mod text;

pub use authority::{Authority, AuthorityRef, AuthorityView};
pub use domain::{Domain, DomainRef};
pub use endpoint::{Endpoint, EndpointRef, EndpointView};
pub use host::{Host, HostRef, HostView};
pub use ip::{IPAddress, IPAddressView, IPv4Address, IPv6Address};
pub use parse::parse_error::ParseError;
pub use parse::parse_port::parse_port;
pub use socket::{
    SocketAddress, SocketAddressV4, SocketAddressV4View, SocketAddressV6, SocketAddressV6View,
    SocketAddressView,
};
