//! The configuration that names the servers: what it holds and how it is edited.
//!
//! Reading and writing the file is the caller's part. The library works on the parsed
//! configuration: a table of server entries by name, each entry a table of values by key.

use vstd::prelude::*;
use crate::name_map::NameMap;

verus! {

/// A value of the configuration file.
#[derive(Debug)]
pub enum ConfigValue {
    Null,
    Flag(bool),
    /// A number, kept as the text that stands in the file.
    Number(String),
    Text(String),
    List(Vec<ConfigValue>),
    Table(NameMap<ConfigValue>),
}

/// The parsed configuration.
#[derive(Debug)]
pub struct ClaudeConfig {
    /// The entry of each configured server, by name.
    pub mcp_servers: NameMap<NameMap<ConfigValue>>,
    pub global_shortcut: String,
}

/// Whether a server of that name is configured.
pub fn is_mcp_server_installed(config: &ClaudeConfig, name: &str) -> (installed: bool)
    ensures
        installed == config.mcp_servers@.contains_key(name@),
{
    config.mcp_servers.contains_key(name)
}

/// Puts the entry under the name, in place of any entry the name had.
pub fn update_mcp_server_config(config: &mut ClaudeConfig, name: String, entry: NameMap<ConfigValue>)
    ensures
        final(config).mcp_servers@ == old(config).mcp_servers@.insert(name@, entry),
        final(config).global_shortcut == old(config).global_shortcut,
{
    config.mcp_servers.insert(name, entry);
}

/// Sets the global shortcut and leaves the servers as they are.
pub fn update_global_shortcut(config: &mut ClaudeConfig, shortcut: String)
    ensures
        final(config).global_shortcut == shortcut,
        final(config).mcp_servers == old(config).mcp_servers,
{
    config.global_shortcut = shortcut;
}

/// Why the configuration could not be read, changed or written.
#[derive(Debug, Clone, PartialEq, Eq)]
pub enum ConfigError {
    /// The configuration has no server of that name.
    ServerNotFound { name: String },
    ReadFailed { reason: String },
    ParseFailed { reason: String },
    SerializeFailed { reason: String },
    WriteFailed { reason: String },
    BackupFailed { reason: String },
    RestoreFailed { reason: String },
    BackupRemovalFailed { reason: String },
}

impl ConfigError {
    pub open spec fn message_text(self) -> Seq<char> {
        match self {
            ConfigError::ServerNotFound { name } => "MCP server '"@ + name@ + "' not found"@,
            ConfigError::ReadFailed { reason } => "Failed to read config file: "@ + reason@,
            ConfigError::ParseFailed { reason } => "Failed to parse config: "@ + reason@,
            ConfigError::SerializeFailed { reason } => "Failed to serialize config: "@ + reason@,
            ConfigError::WriteFailed { reason } => "Failed to write config file: "@ + reason@,
            ConfigError::BackupFailed { reason } => "Failed to create backup: "@ + reason@,
            ConfigError::RestoreFailed { reason } => "Failed to restore backup: "@ + reason@,
            ConfigError::BackupRemovalFailed { reason } => "Failed to remove backup file: "@
                + reason@,
        }
    }

    /// The message shown to the caller.
    pub fn message(&self) -> (text: String)
        ensures
            text@ == self.message_text(),
    {
        match self {
            ConfigError::ServerNotFound { name } => {
                let mut text = String::from_str("MCP server '");
                text.append(name.as_str());
                text.append("' not found");
                text
            },
            ConfigError::ReadFailed { reason } => {
                let mut text = String::from_str("Failed to read config file: ");
                text.append(reason.as_str());
                text
            },
            ConfigError::ParseFailed { reason } => {
                let mut text = String::from_str("Failed to parse config: ");
                text.append(reason.as_str());
                text
            },
            ConfigError::SerializeFailed { reason } => {
                let mut text = String::from_str("Failed to serialize config: ");
                text.append(reason.as_str());
                text
            },
            ConfigError::WriteFailed { reason } => {
                let mut text = String::from_str("Failed to write config file: ");
                text.append(reason.as_str());
                text
            },
            ConfigError::BackupFailed { reason } => {
                let mut text = String::from_str("Failed to create backup: ");
                text.append(reason.as_str());
                text
            },
            ConfigError::RestoreFailed { reason } => {
                let mut text = String::from_str("Failed to restore backup: ");
                text.append(reason.as_str());
                text
            },
            ConfigError::BackupRemovalFailed { reason } => {
                let mut text = String::from_str("Failed to remove backup file: ");
                text.append(reason.as_str());
                text
            },
        }
    }
}

/// Takes the named server out of the configuration. A name that is not configured is an
/// error, and the configuration stays as it is.
pub fn uninstall_mcp_server(config: &mut ClaudeConfig, name: &str) -> (result: Result<
    (),
    ConfigError,
>)
    ensures
        final(config).global_shortcut == old(config).global_shortcut,
        match result {
            Ok(()) => old(config).mcp_servers@.contains_key(name@) && final(config).mcp_servers@
                == old(config).mcp_servers@.remove(name@),
            Err(ConfigError::ServerNotFound { name: missing }) => missing@ == name@ && !old(
                config,
            ).mcp_servers@.contains_key(name@) && final(config).mcp_servers@ == old(
                config,
            ).mcp_servers@,
            Err(_) => false,
        },
{
    if !config.mcp_servers.contains_key(name) {
        return Err(ConfigError::ServerNotFound { name: name.to_owned() });
    }
    config.mcp_servers.remove(name);
    Ok(())
}

/// One thing to do to a file.
#[derive(Debug, Clone, PartialEq, Eq)]
pub enum FileAction {
    Copy { from: String, to: String },
    Remove { path: String },
}

/// What a file action says, with the paths as texts.
pub open spec fn action_text(action: FileAction) -> (int, Seq<char>, Seq<char>) {
    match action {
        FileAction::Copy { from, to } => (0, from@, to@),
        FileAction::Remove { path } => (1, path@, Seq::empty()),
    }
}

/// What has to be done to back the configuration up: where the file exists it is copied
/// to its backup, and where it does not there is nothing to do.
pub open spec fn backup_texts(config_path: Seq<char>, exists: bool) -> Seq<
    (int, Seq<char>, Seq<char>),
> {
    if exists {
        seq![(0, config_path, config_path + ".backup"@)]
    } else {
        Seq::empty()
    }
}

/// What has to be done to bring the backup back: where it exists it is copied over the
/// configuration and then removed, and where it does not there is nothing to do.
pub open spec fn restore_texts(config_path: Seq<char>, exists: bool) -> Seq<
    (int, Seq<char>, Seq<char>),
> {
    if exists {
        seq![
            (0, config_path + ".backup"@, config_path),
            (1, config_path + ".backup"@, Seq::empty()),
        ]
    } else {
        Seq::empty()
    }
}

/// Lists what has to be done to back up the configuration at `config_path`;
/// `config_exists` tells whether that file is there.
pub fn backup_config(config_path: &str, config_exists: bool) -> (actions: Vec<FileAction>)
    ensures
        actions@.map_values(|action: FileAction| action_text(action)) == backup_texts(
            config_path@,
            config_exists,
        ),
{
    let mut actions: Vec<FileAction> = Vec::new();
    if config_exists {
        actions.push(
            FileAction::Copy {
                from: String::from_str(config_path),
                to: crate::config_path::backup_path(config_path),
            },
        );
    }
    assert(actions@.map_values(|action: FileAction| action_text(action)) =~= backup_texts(
        config_path@,
        config_exists,
    ));
    actions
}

/// Lists what has to be done to restore the configuration at `config_path` from its
/// backup; `backup_exists` tells whether the backup is there.
pub fn restore_config_backup(config_path: &str, backup_exists: bool) -> (actions: Vec<FileAction>)
    ensures
        actions@.map_values(|action: FileAction| action_text(action)) == restore_texts(
            config_path@,
            backup_exists,
        ),
{
    let mut actions: Vec<FileAction> = Vec::new();
    if backup_exists {
        actions.push(
            FileAction::Copy {
                from: crate::config_path::backup_path(config_path),
                to: String::from_str(config_path),
            },
        );
        actions.push(FileAction::Remove { path: crate::config_path::backup_path(config_path) });
    }
    assert(actions@.map_values(|action: FileAction| action_text(action)) =~= restore_texts(
        config_path@,
        backup_exists,
    ));
    actions
}

} // verus!
