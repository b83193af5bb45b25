//! Core logic of a tray utility that stages files in a single cloud-storage
//! folder: OAuth2 credential lifecycle, multipart upload encoding with
//! progress reporting, folder resolution, and time-based retention.

pub mod config;
pub mod credential;
pub mod decimal;
pub mod errors;
pub mod files;
pub mod folder;
pub mod json_text;
pub mod retention;
pub mod upload;

pub use errors::{AuthError, DriveError};
