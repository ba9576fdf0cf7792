//! Hosts: a domain name or an IP address, owned as `Host` and borrowed as
//! `HostRef`.

pub mod conversions;
pub mod display;
pub mod from_str;
pub mod host;
pub mod host_ref;
pub mod laws;

pub use host::{Host, HostView};
pub use host_ref::HostRef;
