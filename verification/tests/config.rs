use mcp_supervisor::config::{
    backup_config, is_mcp_server_installed, restore_config_backup, uninstall_mcp_server,
    update_global_shortcut, update_mcp_server_config, ClaudeConfig, ConfigError, ConfigValue,
    FileAction,
};
use mcp_supervisor::config_edit::{advance, first_step, EditKind, EditStep};
use mcp_supervisor::config_path::{
    backup_path, base_variable, get_config_path, locate_config,
};
use mcp_supervisor::name_map::NameMap;
use mcp_supervisor::platform::Platform;

fn sample() -> ClaudeConfig {
    let mut entry = NameMap::new();
    entry.insert("command".to_string(), ConfigValue::Text("npx".to_string()));
    let mut mcp_servers = NameMap::new();
    mcp_servers.insert("files".to_string(), entry);
    ClaudeConfig { mcp_servers, global_shortcut: "Ctrl+Space".to_string() }
}

fn command_of(config: &ClaudeConfig, name: &str) -> Option<String> {
    match config.mcp_servers.get(name)?.get("command")? {
        ConfigValue::Text(command) => Some(command.clone()),
        _ => None,
    }
}

#[test]
fn base_variable_by_platform() {
    assert_eq!(base_variable(Platform::MacOs), "HOME");
    assert_eq!(base_variable(Platform::Linux), "HOME");
    assert_eq!(base_variable(Platform::Windows), "APPDATA");
}

#[test]
fn config_path_by_platform() {
    assert_eq!(
        get_config_path(Platform::MacOs, Some("/Users/me"), "Desktop"),
        "/Users/me/Library/Application Support/Desktop/claude_desktop_config.json"
    );
    assert_eq!(
        get_config_path(Platform::Windows, Some("C:/Users/me/AppData/Roaming"), "Desktop"),
        "C:/Users/me/AppData/Roaming/Desktop/claude_desktop_config.json"
    );
    assert_eq!(
        get_config_path(Platform::Linux, Some("/home/me"), "Desktop"),
        "/home/me/.config/Desktop/claude_desktop_config.json"
    );
}

#[test]
fn config_path_without_base_begins_at_the_root() {
    assert_eq!(
        get_config_path(Platform::Linux, None, "Desktop"),
        "/.config/Desktop/claude_desktop_config.json"
    );
    assert_eq!(
        get_config_path(Platform::MacOs, None, "Desktop"),
        "/Library/Application Support/Desktop/claude_desktop_config.json"
    );
}

#[test]
fn locating_needs_the_base_directory() {
    assert_eq!(
        locate_config(Platform::Linux, Some("/home/me"), "Desktop"),
        Ok("/home/me/.config/Desktop/claude_desktop_config.json".to_string())
    );
    assert_eq!(
        locate_config(Platform::Linux, None, "Desktop"),
        Err("Could not find home directory".to_string())
    );
    assert_eq!(
        locate_config(Platform::MacOs, None, "Desktop"),
        Err("Could not find home directory".to_string())
    );
    assert_eq!(
        locate_config(Platform::Windows, None, "Desktop"),
        Err("Could not find APPDATA directory".to_string())
    );
}

#[test]
fn backup_stands_beside_the_configuration() {
    assert_eq!(
        backup_path("/home/me/.config/Desktop/claude_desktop_config.json"),
        "/home/me/.config/Desktop/claude_desktop_config.json.backup"
    );
}

#[test]
fn backup_copies_an_existing_configuration() {
    assert_eq!(
        backup_config("/c/config.json", true),
        vec![FileAction::Copy {
            from: "/c/config.json".to_string(),
            to: "/c/config.json.backup".to_string()
        }]
    );
    assert_eq!(backup_config("/c/config.json", false), vec![]);
}

#[test]
fn restore_copies_the_backup_back_and_removes_it() {
    assert_eq!(
        restore_config_backup("/c/config.json", true),
        vec![
            FileAction::Copy {
                from: "/c/config.json.backup".to_string(),
                to: "/c/config.json".to_string()
            },
            FileAction::Remove { path: "/c/config.json.backup".to_string() },
        ]
    );
    assert_eq!(restore_config_backup("/c/config.json", false), vec![]);
}

#[test]
fn config_errors_embed_the_reason() {
    let reason = || "denied".to_string();
    assert_eq!(
        ConfigError::ServerNotFound { name: "files".to_string() }.message(),
        "MCP server 'files' not found"
    );
    assert_eq!(
        ConfigError::ReadFailed { reason: reason() }.message(),
        "Failed to read config file: denied"
    );
    assert_eq!(
        ConfigError::ParseFailed { reason: reason() }.message(),
        "Failed to parse config: denied"
    );
    assert_eq!(
        ConfigError::SerializeFailed { reason: reason() }.message(),
        "Failed to serialize config: denied"
    );
    assert_eq!(
        ConfigError::WriteFailed { reason: reason() }.message(),
        "Failed to write config file: denied"
    );
    assert_eq!(
        ConfigError::BackupFailed { reason: reason() }.message(),
        "Failed to create backup: denied"
    );
    assert_eq!(
        ConfigError::RestoreFailed { reason: reason() }.message(),
        "Failed to restore backup: denied"
    );
    assert_eq!(
        ConfigError::BackupRemovalFailed { reason: reason() }.message(),
        "Failed to remove backup file: denied"
    );
}

#[test]
fn installed_servers_are_those_configured() {
    let config = sample();
    assert!(is_mcp_server_installed(&config, "files"));
    assert!(!is_mcp_server_installed(&config, "other"));
    assert!(!is_mcp_server_installed(&config, ""));
}

#[test]
fn updating_an_entry_replaces_it() {
    let mut config = sample();
    let mut entry = NameMap::new();
    entry.insert("command".to_string(), ConfigValue::Text("uvx".to_string()));
    update_mcp_server_config(&mut config, "files".to_string(), entry);
    assert_eq!(command_of(&config, "files"), Some("uvx".to_string()));
    assert_eq!(config.mcp_servers.len(), 1);

    let mut entry = NameMap::new();
    entry.insert("command".to_string(), ConfigValue::Text("node".to_string()));
    update_mcp_server_config(&mut config, "new".to_string(), entry);
    assert_eq!(command_of(&config, "new"), Some("node".to_string()));
    assert_eq!(command_of(&config, "files"), Some("uvx".to_string()));
    assert_eq!(config.global_shortcut, "Ctrl+Space");
}

#[test]
fn updating_the_shortcut_leaves_the_servers() {
    let mut config = sample();
    update_global_shortcut(&mut config, "Alt+C".to_string());
    assert_eq!(config.global_shortcut, "Alt+C");
    assert_eq!(command_of(&config, "files"), Some("npx".to_string()));
}

#[test]
fn uninstalling_removes_the_entry() {
    let mut config = sample();
    assert_eq!(uninstall_mcp_server(&mut config, "files"), Ok(()));
    assert!(!is_mcp_server_installed(&config, "files"));
    assert!(config.mcp_servers.is_empty());
    assert_eq!(config.global_shortcut, "Ctrl+Space");
}

#[test]
fn uninstalling_an_unknown_server_fails_and_changes_nothing() {
    let mut config = sample();
    assert_eq!(
        uninstall_mcp_server(&mut config, "other"),
        Err(ConfigError::ServerNotFound { name: "other".to_string() })
    );
    assert!(is_mcp_server_installed(&config, "files"));
    assert_eq!(config.mcp_servers.len(), 1);
}

fn walk(kind: EditKind, failures: Vec<Option<&str>>) -> Vec<EditStep> {
    let mut seen = Vec::new();
    let mut step = first_step();
    for failure in failures {
        step = advance(kind, step, failure.map(String::from));
        seen.push(match &step {
            EditStep::Restore { cause } => EditStep::Restore { cause: cause.clone() },
            EditStep::Finish { result } => EditStep::Finish { result: result.clone() },
            EditStep::Backup => EditStep::Backup,
            EditStep::StopServer => EditStep::StopServer,
            EditStep::KeepRecord => EditStep::KeepRecord,
            EditStep::Load => EditStep::Load,
            EditStep::Change => EditStep::Change,
            EditStep::Save => EditStep::Save,
            EditStep::DropRecord => EditStep::DropRecord,
        });
    }
    seen
}

fn done(result: Result<(), &str>) -> EditStep {
    EditStep::Finish { result: result.map_err(String::from) }
}

#[test]
fn an_edit_begins_with_the_backup() {
    assert_eq!(first_step(), EditStep::Backup);
}

#[test]
fn shortcut_edit_backs_up_loads_changes_and_saves() {
    for kind in [EditKind::Shortcut, EditKind::ServerEntry] {
        assert_eq!(
            walk(kind, vec![None, None, None, None]),
            vec![EditStep::Load, EditStep::Change, EditStep::Save, done(Ok(()))]
        );
    }
}

#[test]
fn installation_keeps_the_record_before_it_loads() {
    assert_eq!(
        walk(EditKind::Install, vec![None, None, None, None, None]),
        vec![EditStep::KeepRecord, EditStep::Load, EditStep::Change, EditStep::Save, done(Ok(()))]
    );
}

#[test]
fn uninstallation_stops_the_server_first_and_drops_the_record_last() {
    assert_eq!(
        walk(EditKind::Uninstall, vec![None, None, None, None, None, None]),
        vec![
            EditStep::StopServer,
            EditStep::Load,
            EditStep::Change,
            EditStep::Save,
            EditStep::DropRecord,
            done(Ok(())),
        ]
    );
}

#[test]
fn failed_write_brings_the_backup_back() {
    for kind in [EditKind::Shortcut, EditKind::ServerEntry] {
        assert_eq!(
            walk(kind, vec![None, None, None, Some("disk full"), None]),
            vec![
                EditStep::Load,
                EditStep::Change,
                EditStep::Save,
                EditStep::Restore { cause: "disk full".to_string() },
                done(Err("disk full")),
            ]
        );
    }
    assert_eq!(
        walk(EditKind::Uninstall, vec![None, None, None, None, Some("disk full"), None])[4..],
        [EditStep::Restore { cause: "disk full".to_string() }, done(Err("disk full"))]
    );
}

#[test]
fn failed_restore_is_what_the_edit_fails_with() {
    assert_eq!(
        walk(EditKind::Shortcut, vec![None, None, None, Some("disk full"), Some("no backup")])[3..],
        [EditStep::Restore { cause: "disk full".to_string() }, done(Err("no backup"))]
    );
}

#[test]
fn failed_write_during_installation_restores_nothing() {
    assert_eq!(
        walk(EditKind::Install, vec![None, None, None, None, Some("disk full")])[4..],
        [done(Err("disk full"))]
    );
}

#[test]
fn any_other_failure_ends_the_edit_at_once() {
    assert_eq!(walk(EditKind::Shortcut, vec![Some("no backup")]), vec![done(Err("no backup"))]);
    assert_eq!(
        walk(EditKind::Uninstall, vec![None, Some("lock")]),
        vec![EditStep::StopServer, done(Err("lock"))]
    );
    assert_eq!(
        walk(EditKind::Install, vec![None, Some("store")]),
        vec![EditStep::KeepRecord, done(Err("store"))]
    );
    assert_eq!(
        walk(EditKind::ServerEntry, vec![None, Some("unreadable")]),
        vec![EditStep::Load, done(Err("unreadable"))]
    );
    assert_eq!(
        walk(EditKind::Uninstall, vec![None, None, None, Some("MCP server 'x' not found")])[3..],
        [done(Err("MCP server 'x' not found"))]
    );
    assert_eq!(
        walk(EditKind::Uninstall, vec![None, None, None, None, None, Some("store")])[5..],
        [done(Err("store"))]
    );
}

#[test]
fn a_finished_edit_stays_finished() {
    for failure in [None, Some("late")] {
        assert_eq!(
            advance(EditKind::Shortcut, done(Ok(())), failure.map(String::from)),
            done(Ok(()))
        );
        assert_eq!(
            advance(EditKind::Install, done(Err("first")), failure.map(String::from)),
            done(Err("first"))
        );
    }
}
