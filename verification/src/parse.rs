//! What the parsers share: the error they return, the split of a text at
//! its last colon into what stands before it and a port, and the brackets
//! round an IPv6 address.

pub mod brackets;
pub mod parse_error;
pub mod parse_port;
