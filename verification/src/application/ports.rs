//! The two collaborators of the use cases, by what can be asked of them and
//! how they can fail.

pub mod google_drive_service;
pub mod user_repository;
