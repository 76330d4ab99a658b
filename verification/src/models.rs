//! Plain data carriers exchanged with the surrounding process: request and
//! response bodies of the dashboard's endpoints, chat-room messages, and the
//! secure-shell connection records. The relay core itself only depends on
//! [`SshCredentials`]; the rest are carried through unchanged.

use vstd::prelude::*;

verus! {

/// Connection credentials for the pseudo-terminal client.
#[derive(Clone, Debug)]
pub struct SshCredentials {
    pub hostname: String,
    pub port: u16,
    pub username: String,
    pub password: String,
}

/// Specification view of [`SshCredentials`].
pub struct SshCredentialsS {
    pub hostname: Seq<char>,
    pub port: u16,
    pub username: Seq<char>,
    pub password: Seq<char>,
}

impl View for SshCredentials {
    type V = SshCredentialsS;

    open spec fn view(&self) -> SshCredentialsS {
        SshCredentialsS {
            hostname: self.hostname@,
            port: self.port,
            username: self.username@,
            password: self.password@,
        }
    }
}

/// Brief information of a stored API endpoint.
#[derive(Clone, Debug)]
pub struct ApiEndpointBrief {
    pub id: i64,
    pub parent_id: Option<i64>,
    pub name: String,
    pub method: String,
    pub url: String,
    pub order_index: i32,
}

/// Full record of a stored API endpoint.
#[derive(Clone, Debug)]
pub struct ApiEndpointDetail {
    pub id: i64,
    pub parent_id: Option<i64>,
    pub name: String,
    pub method: String,
    pub url: String,
    pub headers: Option<String>,
    pub params: Option<String>,
    pub body_type: Option<String>,
    pub body: Option<String>,
    pub content_type: Option<String>,
    pub order_index: i32,
    pub created_at: String,
    pub updated_at: String,
}

/// Request body for creating an API endpoint.
#[derive(Debug)]
pub struct CreateEndpointPayload {
    pub parent_id: Option<i64>,
    pub name: String,
    pub method: String,
    pub url: String,
    pub headers: Option<String>,
    pub params: Option<String>,
    pub body_type: Option<String>,
    pub body: Option<String>,
    pub content_type: Option<String>,
    pub order_index: Option<i32>,
}

/// Request body for updating an API endpoint.
#[derive(Debug)]
pub struct UpdateEndpointPayload {
    pub parent_id: Option<i64>,
    pub name: String,
    pub method: String,
    pub url: String,
    pub headers: Option<String>,
    pub params: Option<String>,
    pub body_type: Option<String>,
    pub body: Option<String>,
    pub content_type: Option<String>,
    pub order_index: Option<i32>,
}

/// A browsable database file.
#[derive(Debug)]
pub struct DatabaseInfo {
    pub name: String,
    pub path: String,
}

/// A table and its columns.
#[derive(Debug)]
pub struct TableInfo {
    pub name: String,
    pub columns: Vec<ColumnInfo>,
}

/// One column of a browsed table.
#[derive(Debug)]
pub struct ColumnInfo {
    pub name: String,
    pub data_type: String,
    pub not_null: bool,
    pub primary_key: bool,
}

/// Paged query over a browsed table.
#[derive(Debug)]
pub struct QueryParams {
    pub db_name: String,
    pub table_name: Option<String>,
    pub page: Option<u32>,
    pub page_size: Option<u32>,
}

/// Column definition inside a create-table request.
#[derive(Debug)]
pub struct CreateTableColumn {
    pub name: String,
    pub data_type: String,
    pub not_null: Option<bool>,
    pub primary_key: Option<bool>,
}

/// Request body for creating a table.
#[derive(Debug)]
pub struct CreateTablePayload {
    pub db_name: String,
    pub table_name: String,
    pub columns: Vec<CreateTableColumn>,
}

/// Request body for dropping a table.
#[derive(Debug)]
pub struct DropTablePayload {
    pub db_name: String,
    pub table_name: String,
}

/// Request body for renaming a table.
#[derive(Debug)]
pub struct RenameTablePayload {
    pub db_name: String,
    pub table_name: String,
    pub new_name: String,
}

/// Request body for renaming a column.
#[derive(Debug)]
pub struct RenameColumnPayload {
    pub db_name: String,
    pub table_name: String,
    pub old_name: String,
    pub new_name: String,
}

/// Request body for dropping a column.
#[derive(Debug)]
pub struct DropColumnPayload {
    pub db_name: String,
    pub table_name: String,
    pub column_name: String,
}

/// File-browser query for a path inside a session.
#[derive(Debug)]
pub struct PathQuery {
    pub session_id: usize,
    pub path: Option<String>,
}

/// Request body for opening a file-transfer session.
#[derive(Debug)]
pub struct CreateSessionPayload {
    pub hostname: String,
    pub port: u16,
    pub username: String,
    pub password: String,
}

/// Request body for deleting a file or directory.
#[derive(Debug)]
pub struct DeletePayload {
    pub session_id: usize,
    pub path: String,
}

/// Request body for renaming a file or directory.
#[derive(Debug)]
pub struct RenamePayload {
    pub session_id: usize,
    pub path: String,
    pub new_name: String,
}

/// Request body for writing a text file.
#[derive(Debug)]
pub struct WriteFilePayload {
    pub session_id: usize,
    pub path: String,
    pub content: String,
}

/// Request body for uploading a file.
#[derive(Debug)]
pub struct UploadPayload {
    pub session_id: usize,
    pub path: String,
    pub filename: String,
    pub content_base64: String,
}

/// Request body for creating a directory.
#[derive(Debug)]
pub struct MkdirPayload {
    pub session_id: usize,
    pub path: String,
}

/// Request body for changing permission bits.
#[derive(Debug)]
pub struct ChmodPayload {
    pub session_id: usize,
    pub path: String,
    pub mode: i32,
}

/// A stored group of secure-shell servers.
#[derive(Clone, Debug)]
pub struct SshGroup {
    pub id: i64,
    pub name: String,
    pub is_default: i32,
}

/// Request body for creating a server group.
#[derive(Clone, Debug)]
pub struct SshGroupInput {
    pub name: String,
}

/// A stored secure-shell server record.
#[derive(Clone, Debug)]
pub struct SshServer {
    pub id: i64,
    pub alias: String,
    pub hostname: String,
    pub port: i32,
    pub username: String,
    pub password: Option<String>,
    pub group_id: i64,
    pub remark: Option<String>,
}

/// Request body for creating or updating a server record.
#[derive(Clone, Debug)]
pub struct SshServerInput {
    pub alias: Option<String>,
    pub hostname: String,
    pub port: Option<i32>,
    pub username: String,
    pub password: Option<String>,
    pub group_id: Option<i64>,
    pub remark: Option<String>,
}

/// Request body for uploading chat media.
#[derive(Debug)]
pub struct UploadChatMediaPayload {
    pub filename: String,
    pub content_base64: String,
    pub media_type: String,
}

/// Login request body.
#[derive(Debug)]
pub struct LoginRequest {
    pub username: String,
    pub password: String,
}

/// Login user record handed back to the client.
#[derive(Debug)]
pub struct UserInfo {
    pub id: i32,
    pub username: String,
    pub email: String,
}

/// A text frame sent to one connected chat session.
#[derive(Debug)]
pub struct Message(pub String);

/// A chat session leaves the server.
#[derive(Debug)]
pub struct Disconnect {
    pub id: u64,
}

/// A chat message broadcast inside a room.
#[derive(Debug)]
pub struct ClientMessage {
    pub id: u64,
    pub msg: String,
    pub room: String,
}

/// A chat session picks a user name.
#[derive(Debug)]
pub struct SetUsername {
    pub id: u64,
    pub username: String,
}

/// A direct message between two chat users.
#[derive(Debug)]
pub struct PrivateMessage {
    pub sender_id: u64,
    pub receiver_username: String,
    pub msg: String,
}

/// A request for the recent history of a room.
#[derive(Debug)]
pub struct GetHistoryMessages {
    pub room: String,
    pub limit: i32,
    pub requester_id: u64,
}

/// A request for the list of rooms.
#[derive(Debug)]
pub struct ListRooms;

/// A chat session joins a room.
#[derive(Debug)]
pub struct Join {
    pub id: u64,
    pub name: String,
}

/// A command-style shell session asks for a connection.
#[derive(Debug)]
pub struct ConnectSsh {
    pub credentials: crate::ssh_client::SshCredentials,
}

/// Binds a command-style shell session to a client slot.
#[derive(Debug)]
pub struct SetSshClientId {
    pub client_id: usize,
}

/// A command to run over a command-style shell session.
#[derive(Debug)]
pub struct ExecuteCommand {
    pub command: String,
}

/// A complete text frame to be written to the client connection.
#[derive(Clone, Debug)]
pub struct SendWsMessage {
    pub text: String,
}

} // verus!
