//! IP addresses: the four bytes of an IPv4 address, the sixteen of an IPv6
//! address, either of the two, and their texts.

pub mod conversions;
pub mod display;
pub mod from_str;
pub mod ip_address;
pub mod ipv4_address;
pub mod ipv6_address;
pub mod laws;

pub use ip_address::{IPAddress, IPAddressView};
pub use ipv4_address::IPv4Address;
pub use ipv6_address::IPv6Address;
