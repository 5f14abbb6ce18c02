//! What stands between the use cases and the world: the provider and the
//! store on one side, HTTP on the other.

pub mod config;
pub mod driven;
pub mod driving;
