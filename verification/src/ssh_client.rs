//! The simplified secure-shell client record: it keeps the credentials and
//! the connection flag for the command-style shell endpoints. The transport
//! that actually moves bytes lives with the pseudo-terminal bridge.

use vstd::prelude::*;

verus! {

/// Result type of the secure-shell client operations.
pub type SshResult<T> = Result<T, SshError>;

/// The failures a secure-shell operation can report.
#[derive(Clone, Debug)]
pub enum SshError {
    /// The transport could not be established; carries the underlying text.
    ConnectionError(String),
    /// The server rejected the credentials.
    AuthFailed(String),
    /// A file operation failed.
    FileError(String),
    /// Anything else.
    Unknown,
}

impl SshError {
    /// A human-readable description of the failure.
    pub fn message(&self) -> (r: String)
        ensures
            match self {
                SshError::ConnectionError(t) => r@ == "连接错误: "@ + t@,
                SshError::AuthFailed(t) => r@ == "认证失败: "@ + t@,
                SshError::FileError(t) => r@ == "文件操作错误: "@ + t@,
                SshError::Unknown => r@ == "未知错误"@,
            },
    {
        match self {
            SshError::ConnectionError(t) => String::from_str("连接错误: ").concat(t.as_str()),
            SshError::AuthFailed(t) => String::from_str("认证失败: ").concat(t.as_str()),
            SshError::FileError(t) => String::from_str("文件操作错误: ").concat(t.as_str()),
            SshError::Unknown => String::from_str("未知错误"),
        }
    }
}

/// Connection credentials of the command-style client.
#[derive(Clone, Debug)]
pub struct SshCredentials {
    pub hostname: String,
    pub port: u16,
    pub username: String,
    pub password: String,
}

/// A file listed over the file-transfer subsystem; the modification time is
/// kept as seconds since the epoch.
#[derive(Clone, Debug)]
pub struct SftpFileInfo {
    pub name: String,
    pub path: String,
    pub size: u64,
    pub is_dir: bool,
    pub modified: Option<u64>,
}

/// The command-style secure-shell client: it records the credentials handed
/// to `connect` and whether the connection is considered live.
#[derive(Debug)]
pub struct SshClient {
    credentials: Option<SshCredentials>,
    is_connected: bool,
}

impl SshClient {
    /// A fresh client: no credentials, not connected.
    pub fn new() -> (r: SshClient)
        ensures
            r.credentials() is None,
            !r.connected(),
    {
        SshClient { credentials: None, is_connected: false }
    }

    /// The credentials handed to the last `connect`, if any.
    pub closed spec fn credentials(&self) -> Option<SshCredentials> {
        self.credentials
    }

    /// Whether the client considers itself connected.
    pub closed spec fn connected(&self) -> bool {
        self.is_connected
    }

    /// Records the credentials and marks the client connected; the transport
    /// itself is established by the pseudo-terminal bridge.
    pub fn connect(&mut self, credentials: SshCredentials) -> (r: SshResult<()>)
        ensures
            r is Ok,
            final(self).credentials() == Some(credentials),
            final(self).connected(),
    {
        self.credentials = Some(credentials);
        self.is_connected = true;
        Ok(())
    }

    /// Reports what would be run; the pseudo-terminal bridge carries real
    /// command traffic.
    pub fn execute_command(&self, command: &str) -> (r: SshResult<String>)
        ensures
            r is Ok,
            r->Ok_0@ == "模拟执行命令: "@ + command@,
    {
        Ok(String::from_str("模拟执行命令: ").concat(command))
    }

    /// Establishes nothing; kept for interface compatibility.
    pub fn create_sftp(&self) -> (r: SshResult<()>)
        ensures
            r is Ok,
    {
        Ok(())
    }

    /// Accepts the transfer request; kept for interface compatibility.
    pub fn upload_file(&self, local_path: &str, remote_path: &str) -> (r: SshResult<()>)
        ensures
            r is Ok,
    {
        let _ = local_path;
        let _ = remote_path;
        Ok(())
    }

    /// Accepts the transfer request; kept for interface compatibility.
    pub fn download_file(&self, remote_path: &str, local_path: &str) -> (r: SshResult<()>)
        ensures
            r is Ok,
    {
        let _ = remote_path;
        let _ = local_path;
        Ok(())
    }

    /// Lists nothing; kept for interface compatibility.
    pub fn list_directory(&self, path: &str) -> (r: SshResult<Vec<SftpFileInfo>>)
        ensures
            r is Ok,
            r->Ok_0@.len() == 0,
    {
        let _ = path;
        Ok(Vec::new())
    }

    /// Drops the credentials and marks the client disconnected.
    pub fn disconnect(&mut self) -> (r: SshResult<()>)
        ensures
            r is Ok,
            final(self).credentials() is None,
            !final(self).connected(),
    {
        self.credentials = None;
        self.is_connected = false;
        Ok(())
    }
}

} // verus!
