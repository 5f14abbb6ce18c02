//! Delegated-storage gateway: sign-in through a third-party identity and
//! storage provider, short-lived session credentials, reconciliation of the
//! local user record, and the decisions behind the file transfer proxy.
//!
//! Everything in this crate is plain computation on plain values. Calls that
//! touch the network, the disk or the user store are described as requests
//! and answered with events; the caller performs them.

pub mod adapters;
pub mod application;
pub mod domain;
pub mod text;
