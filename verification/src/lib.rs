//! A supervisor for MCP servers: auxiliary processes that a desktop host starts, watches
//! and stops.
//!
//! The library holds the decisions and leaves the doing to its caller. It keeps the
//! registry of running servers (`supervisor`), and lays out the start and the stop of a
//! server as steps for the caller to carry out (`start`, `stop`). Around that core it
//! reads server definitions out of the host's configuration (`config`, `definition`),
//! plans the edits of that configuration (`config_edit`, `config_path`), and decides what
//! the catalogue of templates, the environment checks and the tray have to say
//! (`templates`, `installed`, `env_check`, `tray`, `restart`).
//!
//! No function here spawns a process, touches a file or takes a lock.

pub mod config;
pub mod config_edit;
pub mod config_path;
pub mod definition;
pub mod env_check;
pub mod failure;
pub mod folders;
pub mod installed;
pub mod name_map;
pub mod platform;
pub mod probe;
pub mod relay;
pub mod restart;
pub mod start;
pub mod stop;
pub mod supervisor;
pub mod templates;
pub mod text;
pub mod tray;
