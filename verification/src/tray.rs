//! What the tray shows and what its events ask for.
//!
//! Building the menu out of real menu items is the caller's part. Which items there are,
//! what they say, and what a click on one means is decided here.

use vstd::prelude::*;
use crate::config::ClaudeConfig;
use crate::name_map::{ascending, has_name};
use crate::text::same_text;

verus! {

/// Every how many seconds the tray menu is rebuilt.
pub const MENU_REFRESH_SECONDS: u64 = 5;

/// Every how many seconds the status checker tells the tray to repaint.
pub const STATUS_CHECK_SECONDS: u64 = 30;

/// One item of the tray menu.
#[derive(Debug, Clone, PartialEq, Eq)]
pub struct MenuEntry {
    pub id: String,
    pub label: String,
    pub enabled: bool,
}

/// What a click on a menu item asks for.
#[derive(Debug, Clone, Copy, PartialEq, Eq, Structural)]
pub enum MenuCommand {
    /// Show the main window and give it the focus.
    ShowApp,
    /// Stop all servers, then leave.
    Quit,
    /// Nothing.
    Ignore,
}

/// What the pointer did to the tray icon.
#[derive(Debug, Clone, Copy, PartialEq, Eq, Structural)]
pub enum TrayGesture {
    RightClick,
    OtherClick,
    Enter,
    Leave,
    Other,
}

/// The names of the configured servers, each once, in ascending order: the order in which
/// the menu lists them.
pub fn service_names(config: &ClaudeConfig) -> (names: Vec<String>)
    ensures
        names.len() == config.mcp_servers@.len(),
        ascending(names@),
        forall|name: Seq<char>| config.mcp_servers@.contains_key(name) <==> has_name(names@, name),
{
    config.mcp_servers.keys()
}

/// How the state of a server reads in the menu.
pub open spec fn status_text(running: bool) -> Seq<char> {
    if running {
        "运行中"@
    } else {
        "已停止"@
    }
}

/// The menu item of one server: it cannot be clicked.
pub open spec fn service_item(service: (String, bool)) -> (Seq<char>, Seq<char>, bool) {
    ("service_"@ + service.0@, service.0@ + " "@ + status_text(service.1), false)
}

/// The menu: one item for each server, in the order given, then the item that shows the
/// window and the item that quits.
pub open spec fn menu_texts(services: Seq<(String, bool)>) -> Seq<(Seq<char>, Seq<char>, bool)> {
    services.map_values(|service: (String, bool)| service_item(service)) + seq![
        ("show_app"@, "Show App"@, true),
        ("quit"@, "Quit"@, true),
    ]
}

/// What a menu entry says.
pub open spec fn entry_text(entry: MenuEntry) -> (Seq<char>, Seq<char>, bool) {
    (entry.id@, entry.label@, entry.enabled)
}

/// Makes the tray menu for the given servers, each with whether it is running.
pub fn create_status_menu(services: &Vec<(String, bool)>) -> (menu: Vec<MenuEntry>)
    ensures
        menu@.map_values(|entry: MenuEntry| entry_text(entry)) == menu_texts(services@),
{
    let mut menu: Vec<MenuEntry> = Vec::new();
    let mut i: usize = 0;
    while i < services.len()
        invariant
            i <= services.len(),
            menu.len() == i,
            forall|k: int| 0 <= k < i ==> entry_text(#[trigger] menu[k]) == service_item(services[k]),
        decreases services.len() - i,
    {
        let mut id = String::from_str("service_");
        id.append(services[i].0.as_str());
        let mut label = String::from_str(services[i].0.as_str());
        label.append(" ");
        if services[i].1 {
            label.append("运行中");
        } else {
            label.append("已停止");
        }
        menu.push(MenuEntry { id, label, enabled: false });
        i += 1;
    }
    menu.push(
        MenuEntry {
            id: String::from_str("show_app"),
            label: String::from_str("Show App"),
            enabled: true,
        },
    );
    menu.push(
        MenuEntry { id: String::from_str("quit"), label: String::from_str("Quit"), enabled: true },
    );
    assert(menu@.map_values(|entry: MenuEntry| entry_text(entry)) =~= menu_texts(services@));
    menu
}

/// What a click on the menu item with the given id asks for.
pub fn menu_command(id: &str) -> (command: MenuCommand)
    ensures
        command == if id@ == "show_app"@ {
            MenuCommand::ShowApp
        } else if id@ == "quit"@ {
            MenuCommand::Quit
        } else {
            MenuCommand::Ignore
        },
{
    if same_text(id, "show_app") {
        MenuCommand::ShowApp
    } else if same_text(id, "quit") {
        MenuCommand::Quit
    } else {
        MenuCommand::Ignore
    }
}

/// The name of the signal that a gesture sends to the window, if it sends one.
pub fn tray_signal(gesture: TrayGesture) -> (signal: Option<&'static str>)
    ensures
        match gesture {
            TrayGesture::RightClick => signal is Some && signal->0@ == "tray_contextmenu"@,
            TrayGesture::Enter => signal is Some && signal->0@ == "tray_mouseenter"@,
            TrayGesture::Leave => signal is Some && signal->0@ == "tray_mouseleave"@,
            _ => signal is None,
        },
{
    match gesture {
        TrayGesture::RightClick => Some("tray_contextmenu"),
        TrayGesture::Enter => Some("tray_mouseenter"),
        TrayGesture::Leave => Some("tray_mouseleave"),
        _ => None,
    }
}

} // verus!
