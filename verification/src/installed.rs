//! The record kept of each server that was installed from a template.
//!
//! The records live in a store that the caller loads and saves; here they are a map by
//! server name.

use vstd::prelude::*;
use crate::name_map::NameMap;

verus! {

/// What is remembered of an installed server.
#[derive(Debug, Clone)]
pub struct InstalledMcpServer {
    pub id: String,
    pub name: String,
    pub command: String,
    pub args: Vec<String>,
    pub env: Option<NameMap<String>>,
    pub require_file_path: bool,
    pub repo_url: String,
}

/// Why the store could not be used.
#[derive(Debug, Clone, PartialEq, Eq)]
pub enum StoreError {
    OpenFailed { reason: String },
    SaveFailed { reason: String },
}

impl StoreError {
    pub open spec fn message_text(self) -> Seq<char> {
        match self {
            StoreError::OpenFailed { reason } => "Failed to create store: "@ + reason@,
            StoreError::SaveFailed { reason } => "Failed to save store: "@ + reason@,
        }
    }

    /// The message shown to the caller.
    pub fn message(&self) -> (text: String)
        ensures
            text@ == self.message_text(),
    {
        match self {
            StoreError::OpenFailed { reason } => {
                let mut text = String::from_str("Failed to create store: ");
                text.append(reason.as_str());
                text
            },
            StoreError::SaveFailed { reason } => {
                let mut text = String::from_str("Failed to save store: ");
                text.append(reason.as_str());
                text
            },
        }
    }
}

/// The file in which the store is kept.
pub const STORE_PATH: &'static str = ".mcp.servers.dat";

/// The key under which the store holds the records.
pub const SERVERS_KEY: &'static str = "installed_servers";

/// Keeps the record under the server's name, in place of any record the name had.
pub fn save_installed_server(
    servers: &mut NameMap<InstalledMcpServer>,
    server: InstalledMcpServer,
)
    ensures
        final(servers)@ == old(servers)@.insert(server.name@, server),
{
    let name = server.name.clone();
    servers.insert(name, server);
}

/// The record kept under the name, if there is one.
pub fn get_installed_server<'a>(servers: &'a NameMap<InstalledMcpServer>, name: &str) -> (found:
    Option<&'a InstalledMcpServer>)
    ensures
        match found {
            Some(server) => servers@.contains_key(name@) && *server == servers@[name@],
            None => !servers@.contains_key(name@),
        },
{
    servers.get(name)
}

/// Drops the record kept under the name; where there is none, nothing changes.
pub fn remove_installed_server(servers: &mut NameMap<InstalledMcpServer>, name: &str)
    ensures
        final(servers)@ == old(servers)@.remove(name@),
{
    servers.remove(name);
}

} // verus!
