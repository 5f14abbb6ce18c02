//! The values and records the gateway is about.

pub mod entities;
pub mod value_objects;
