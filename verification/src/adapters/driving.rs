//! The ways in which the gateway is called.

pub mod http;
