//! Session store and chunked-upload protocol of a secure file-transfer service.

pub mod config;
pub mod email;
pub mod error;
pub mod hex;
pub mod ident;
pub mod metadata;
pub mod range;
pub mod session;
pub mod store;
pub mod text;
pub mod token;
pub mod upload;
