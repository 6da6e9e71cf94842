//! The error type surfaced by every fallible operation of the library.
//!
//! Failures of the remote transport reach the library as plain messages; the
//! variants keep the shape of the operation that failed so callers can tell a
//! policy rejection (size, path) from a transport failure.

use vstd::prelude::*;

verus! {

/// Why an upload, a path resolution, or a credential refresh failed.
#[derive(Debug, Clone)]
pub enum Error {
    /// The token endpoint rejected the refresh token or was unreachable.
    RefreshToken { message: String },
    /// The interactive flow returned a state value that does not match ours.
    CsrfToken,
    /// The declared size exceeds the service's maximum single-file size.
    FileTooLarge { file: String, size: String },
    /// Looking up a folder's remote identifier failed in transport.
    GetParentId { path: String, message: String },
    /// A response did not have the shape the protocol promises.
    Parsing { context: String },
    /// The destination path is absolute, or has no leaf to upload to.
    InvalidPath { path: String },
    /// Creating a missing folder failed in transport.
    CreateDir { path: String, message: String },
    /// The session-creation request failed in transport.
    CreateUploadSessionRequest { message: String },
    /// The session-creation response was unusable.
    CreateUploadSession { message: String },
    /// A chunk request of a session upload failed in transport.
    UploadFileSessionRequest { message: String },
    /// The upload session itself became unusable, e.g. it expired.
    UploadFileSession { message: String },
    /// Reading the source stream failed.
    ReadFile { message: String },
    /// The single-request upload of a small file failed.
    UploadFile { message: String },
}

} // verus!
