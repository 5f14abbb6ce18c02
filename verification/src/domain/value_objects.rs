//! Small validated values.

pub mod email;
pub mod file_info;
pub mod id;
pub mod timestamp;
