//! What every request passes before it reaches a handler.

pub mod authentication;
