//! Socket addresses: an IP address with a port, of one kind or of either.

pub mod conversions;
pub mod display;
pub mod from_str;
pub mod laws;
pub mod socket_address;
pub mod socket_address_v4;
pub mod socket_address_v6;

pub use socket_address::{SocketAddress, SocketAddressView};
pub use socket_address_v4::{SocketAddressV4, SocketAddressV4View};
pub use socket_address_v6::{SocketAddressV6, SocketAddressV6View};
