//! Authorities: a host with a port, owned as `Authority` and borrowed as
//! `AuthorityRef`.

pub mod authority;
pub mod authority_ref;
pub mod conversions;
pub mod display;
pub mod from_str;
pub mod laws;

pub use authority::{Authority, AuthorityView};
pub use authority_ref::AuthorityRef;
