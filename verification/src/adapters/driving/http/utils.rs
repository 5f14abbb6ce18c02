//! Shapes shared by the handlers.

pub mod responses;
