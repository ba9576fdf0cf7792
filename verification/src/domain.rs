//! Domain names: what makes a label and a name valid, the owned `Domain` and
//! the borrowed `DomainRef`.

pub mod conversions;
pub mod display;
pub mod domain;
pub mod domain_ref;
pub mod from_str;
pub mod laws;
pub mod validation;

pub use domain::Domain;
pub use domain_ref::DomainRef;
