//! One module per use case.

pub mod download_pdf;
pub mod get_google_auth_url;
pub mod handle_google_callback;
pub mod list_files;
pub mod upload_pdf;
