//! A verified client core for uploading byte streams to a remote drive.
//!
//! The library holds the logic of the upload pipeline: the size policy that
//! chooses between a direct upload and a resumable chunked session, the
//! virtual-path resolution that creates missing folders, the chunked-session
//! state machine driven by server range reports, and the credential snapshot
//! that a background refresher replaces atomically. Network transport and the
//! async runtime live outside the library and feed it plain values.

use vstd::prelude::*;

pub mod api;
pub mod credentials;
pub mod decimal;
pub mod error;
pub mod local;
pub mod onedrive;
pub mod paths;
pub mod resolver;
pub mod session;
pub mod size;

verus! {

/// The largest file the remote service accepts, in bytes (250 GiB).
pub const MAX_FILE_LIMIT: u64 = 250 * 1024 * 1024 * 1024;

/// The size of each chunk of a session upload, in bytes (10 MiB).
pub const CHUNK_SIZE: u64 = 10 * 1024 * 1024;

} // verus!
