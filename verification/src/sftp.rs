//! The file-browser's data carriers: session credentials and directory
//! entries. The file-transfer traffic itself stays with the surrounding
//! process.

use vstd::prelude::*;

verus! {

/// Credentials of one file-transfer session.
#[derive(Clone, Debug)]
pub struct SftpCredentials {
    pub hostname: String,
    pub port: u16,
    pub username: String,
    pub password: String,
}

/// One listed file or directory; times are seconds since the epoch.
#[derive(Clone, Debug)]
pub struct FileEntry {
    pub name: String,
    pub path: String,
    pub size: u64,
    pub is_dir: bool,
    pub permissions: u32,
    pub mtime: u64,
}

} // verus!
