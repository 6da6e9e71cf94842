//! The local-disk backend's configuration.
//!
//! Storing a file locally is plain file I/O and lives outside the library;
//! what belongs here is the backend's one piece of state, the folder that
//! every destination path is placed under.

use std::path::PathBuf;

use vstd::prelude::*;

verus! {

/// `std::path::PathBuf`, declared so values of it can be held and passed
/// through; the library does not look inside them.
#[verifier::external_type_specification]
#[verifier::external_body]
pub struct ExPathBuf(PathBuf);

/// The local-disk backend: uploads become files under one folder.
pub struct Local {
    folder: PathBuf,
}

impl Local {
    /// The configured folder.
    pub closed spec fn spec_folder(&self) -> PathBuf {
        self.folder
    }

    /// Create a new instance of the local backend.
    /// folder: The folder where the files will be stored.
    pub fn new(folder: PathBuf) -> (r: Local)
        ensures
            r.spec_folder() == folder,
    {
        Local { folder }
    }

    /// The folder the files are stored under.
    pub fn folder(&self) -> (r: &PathBuf)
        ensures
            *r == self.spec_folder(),
    {
        &self.folder
    }
}

} // verus!
