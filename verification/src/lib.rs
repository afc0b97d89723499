//! Validated application identities and the application metadata record.

pub mod application;
pub mod fetch;
pub mod rdn;
