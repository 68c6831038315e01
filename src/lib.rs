//! Maps long URLs to short random alphanumeric identifiers and back.

pub mod link;
pub mod ident;
pub mod validation;
pub mod flow;
pub mod store;
pub mod laws;
