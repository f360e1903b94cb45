//! Core of a small file-upload tool: named backend profiles, remote-path
//! template rendering, and public-URL construction. The actual byte
//! transport is delegated to a storage backend crate; this library holds
//! the logic around it.

pub mod config;
pub mod error;
pub mod template;
pub mod text;
pub mod uploader;
