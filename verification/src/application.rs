//! What the gateway does: the collaborators it needs and the use cases it offers.

pub mod ports;
pub mod usecases;
