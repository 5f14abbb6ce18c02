//! Records with identity.

pub mod token_data;
pub mod user;
