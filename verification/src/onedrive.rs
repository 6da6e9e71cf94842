//! The remote-drive backend's core: configuration, credentials, the upload
//! policy, and the exact text of every request it asks its driver to make.
//!
//! The core performs no I/O. The driver around it reads the source stream,
//! sends the requests, and feeds responses to the resolver and session
//! machines; everything those machines are told, and every URL and header
//! value they are told to send, is computed and pinned down here.

use vstd::prelude::*;
use vstd::string::StringExecFns;

use crate::api::spec_graph_url;
use crate::api::ApiType;
use crate::credentials::Credentials;
use crate::credentials::TokenCell;
use crate::error::Error;
use crate::paths::calu_path;
use crate::paths::DrivePath;
use crate::session::plan_upload;
use crate::session::UploadKind;
use crate::size::spec_size_string;
use crate::size::u64_to_size_string;
use crate::CHUNK_SIZE;
use crate::MAX_FILE_LIMIT;

verus! {

/// A remote-drive backend instance: which cloud to talk to, the root folder
/// all destinations live under, and the credential snapshot shared with the
/// background refresher.
pub struct Onedrive {
    pub api_type: ApiType,
    pub folder: DrivePath,
    pub tokens: TokenCell,
}

/// How one upload is to proceed after the size and path policies have both
/// passed: the folder to resolve, the leaf name to store under, and whether
/// the payload goes directly or through a session.
#[derive(Debug, Clone)]
pub enum UploadStart {
    Direct { parent: DrivePath, file_name: String },
    Chunked { parent: DrivePath, file_name: String },
}

impl Onedrive {
    /// The configured root folder is absolute and well formed.
    pub open spec fn wf(&self) -> bool {
        self.folder.absolute && self.folder.wf()
    }

    /// Builds a backend instance over an initial credential snapshot; a root
    /// folder that is not absolute is refused.
    pub fn new(api_type: ApiType, folder: DrivePath, initial: Credentials) -> (r: Result<
        Onedrive,
        Error,
    >)
        requires
            folder.wf(),
        ensures
            match r {
                Ok(d) => {
                    &&& folder.absolute
                    &&& d.wf()
                    &&& d.api_type == api_type
                    &&& d.folder == folder
                },
                Err(e) => {
                    &&& !folder.absolute
                    &&& e matches Error::InvalidPath { path } && path@ == folder.spec_render()
                },
            },
    {
        if !folder.absolute {
            return Err(Error::InvalidPath { path: folder.render() });
        }
        Ok(Onedrive { api_type, folder, tokens: TokenCell::new(initial) })
    }

    /// The refresh token of the current snapshot, whichever snapshot the
    /// concurrent refresher has most recently installed.
    pub fn refresh_token(&self) -> String {
        self.tokens.load().refresh_token
    }

    /// The access token of the current snapshot: a non-blocking read that
    /// never fails, returning whichever snapshot is current.
    pub fn current_access_token(&self) -> String {
        self.tokens.load().access_token
    }

    /// Applies the size and path policies to one upload request.
    ///
    /// An oversized payload is refused as too large, and an absolute
    /// destination (or one with no leaf) as an invalid path — both before
    /// any request exists to send. Anything else names the parent folder to
    /// resolve, the leaf to store under, and the transfer shape its size
    /// dictates.
    pub fn begin_upload(&self, size: u64, dest: &DrivePath) -> (r: Result<UploadStart, Error>)
        requires
            self.wf(),
            dest.wf(),
        ensures
            match r {
                Ok(start) => {
                    &&& size <= MAX_FILE_LIMIT
                    &&& !dest.absolute
                    &&& self.folder.seg_views().len() + dest.seg_views().len() > 0
                    &&& {
                        let joined = self.folder.seg_views() + dest.seg_views();
                        match start {
                            UploadStart::Direct { parent, file_name } => {
                                &&& size < CHUNK_SIZE
                                &&& parent.absolute
                                &&& parent.wf()
                                &&& parent.seg_views() == joined.drop_last()
                                &&& file_name@ == joined.last()
                            },
                            UploadStart::Chunked { parent, file_name } => {
                                &&& CHUNK_SIZE <= size
                                &&& parent.absolute
                                &&& parent.wf()
                                &&& parent.seg_views() == joined.drop_last()
                                &&& file_name@ == joined.last()
                            },
                        }
                    }
                },
                Err(e) => match e {
                    Error::FileTooLarge { file, size: rendered } => {
                        &&& size > MAX_FILE_LIMIT
                        &&& file@ == dest.spec_render()
                        &&& rendered@ == spec_size_string(size)
                    },
                    Error::InvalidPath { path } => {
                        &&& size <= MAX_FILE_LIMIT
                        &&& dest.absolute || self.folder.seg_views().len()
                            + dest.seg_views().len() == 0
                        &&& path@ == if dest.absolute {
                            dest.spec_render()
                        } else {
                            crate::paths::spec_render_path(self.folder.absolute, Seq::empty())
                        }
                    },
                    _ => false,
                },
            },
    {
        match plan_upload(size) {
            UploadKind::TooLarge => Err(
                Error::FileTooLarge { file: dest.render(), size: u64_to_size_string(size) },
            ),
            UploadKind::Direct => {
                let (parent, file_name) = calu_path(&self.folder, dest)?;
                Ok(UploadStart::Direct { parent, file_name })
            },
            UploadKind::Chunked => {
                let (parent, file_name) = calu_path(&self.folder, dest)?;
                Ok(UploadStart::Chunked { parent, file_name })
            },
        }
    }

    /// The URL a small file is put to directly: the leaf addressed by path
    /// beneath its parent folder's identifier.
    pub fn direct_upload_url(&self, parent_id: &str, file_name: &str) -> (r: String)
        ensures
            r@ == spec_graph_url(self.api_type) + "/me/drive/items/"@ + parent_id@ + ":/"@
                + file_name@ + ":/content"@,
    {
        let mut r = String::from_str(self.api_type.get_graph_url());
        r.append("/me/drive/items/");
        r.append(parent_id);
        r.append(":/");
        r.append(file_name);
        r.append(":/content");
        proof {
            assert(r@ =~= spec_graph_url(self.api_type) + "/me/drive/items/"@ + parent_id@ + ":/"@
                + file_name@ + ":/content"@);
        }
        r
    }

    /// The URL an upload session is requested at for the same leaf.
    pub fn create_session_url(&self, parent_id: &str, file_name: &str) -> (r: String)
        ensures
            r@ == spec_graph_url(self.api_type) + "/me/drive/items/"@ + parent_id@ + ":/"@
                + file_name@ + ":/createUploadSession"@,
    {
        let mut r = String::from_str(self.api_type.get_graph_url());
        r.append("/me/drive/items/");
        r.append(parent_id);
        r.append(":/");
        r.append(file_name);
        r.append(":/createUploadSession");
        proof {
            assert(r@ =~= spec_graph_url(self.api_type) + "/me/drive/items/"@ + parent_id@ + ":/"@
                + file_name@ + ":/createUploadSession"@);
        }
        r
    }

    /// The URL a folder is looked up at: the drive root itself for the empty
    /// path, a by-path address otherwise.
    pub fn lookup_url(&self, folder: &DrivePath) -> (r: String)
        ensures
            folder.seg_views().len() == 0 ==> r@ == spec_graph_url(self.api_type)
                + "/me/drive/root"@,
            folder.seg_views().len() > 0 ==> r@ == spec_graph_url(self.api_type)
                + "/me/drive/root:/"@ + folder.spec_render() + "/"@,
    {
        let mut r = String::from_str(self.api_type.get_graph_url());
        if folder.segments.len() == 0 {
            r.append("/me/drive/root");
            proof {
                assert(r@ =~= spec_graph_url(self.api_type) + "/me/drive/root"@);
            }
        } else {
            r.append("/me/drive/root:/");
            r.append(folder.render().as_str());
            r.append("/");
            proof {
                assert(r@ =~= spec_graph_url(self.api_type) + "/me/drive/root:/"@
                    + folder.spec_render() + "/"@);
            }
        }
        r
    }

    /// The URL a folder's children are created at, by the folder's
    /// identifier.
    pub fn create_folder_url(&self, parent_id: &str) -> (r: String)
        ensures
            r@ == spec_graph_url(self.api_type) + "/me/drive/items/"@ + parent_id@ + "/children"@,
    {
        let mut r = String::from_str(self.api_type.get_graph_url());
        r.append("/me/drive/items/");
        r.append(parent_id);
        r.append("/children");
        proof {
            assert(r@ =~= spec_graph_url(self.api_type) + "/me/drive/items/"@ + parent_id@
                + "/children"@);
        }
        r
    }
}

/// The authorization header value carrying an access token.
pub fn bearer_header(token: &str) -> (r: String)
    ensures
        r@ == "Bearer "@ + token@,
{
    let mut r = String::from_str("Bearer ");
    r.append(token);
    r
}

} // verus!
