//! The collaborators the gateway calls.

pub mod google_drive_service;
pub mod user_repository;
