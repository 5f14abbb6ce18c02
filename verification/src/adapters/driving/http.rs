//! The gateway over HTTP: what each route answers, and who may call it.

pub mod handlers;
pub mod middlewares;
pub mod utils;
