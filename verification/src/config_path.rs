//! Where the configuration file and its backup stand.
//!
//! The caller reads the environment and hands over what it found, together with the name
//! of the desktop application whose configuration this is; the paths are made here.

use vstd::prelude::*;
use crate::platform::Platform;

verus! {

/// The environment variable that names the directory under which the configuration stands.
pub open spec fn base_variable_text(platform: Platform) -> Seq<char> {
    match platform {
        Platform::Windows => "APPDATA"@,
        _ => "HOME"@,
    }
}

pub fn base_variable(platform: Platform) -> (name: &'static str)
    ensures
        name@ == base_variable_text(platform),
{
    match platform {
        Platform::Windows => "APPDATA",
        _ => "HOME",
    }
}

/// The directory, below the base directory, that holds the application's own directory; it
/// begins and ends with a slash.
pub open spec fn application_parent(platform: Platform) -> Seq<char> {
    match platform {
        Platform::MacOs => "/Library/Application Support/"@,
        Platform::Windows => "/"@,
        Platform::Linux => "/.config/"@,
    }
}

/// The name of the configuration file, with its leading slash.
pub open spec fn config_file_text() -> Seq<char> {
    "/claude_desktop_config.json"@
}

/// The path of the configuration file below the base directory, with its leading slash.
pub open spec fn config_suffix(platform: Platform, application: Seq<char>) -> Seq<char> {
    application_parent(platform) + application + config_file_text()
}

/// The base directory to go by: an unset variable counts as the empty text.
pub open spec fn base_or_empty(base: Option<&str>) -> Seq<char> {
    match base {
        Some(directory) => directory@,
        None => Seq::empty(),
    }
}

/// The path of the configuration file, for showing. `base` is the value of the platform's
/// base variable, and `application` the name of the application's directory; where the
/// variable is not set the path begins at the root.
pub fn get_config_path(platform: Platform, base: Option<&str>, application: &str) -> (path: String)
    ensures
        path@ == base_or_empty(base) + config_suffix(platform, application@),
{
    let mut path = match base {
        Some(directory) => String::from_str(directory),
        None => String::new(),
    };
    let ghost start = path@;
    match platform {
        Platform::MacOs => path.append("/Library/Application Support/"),
        Platform::Windows => path.append("/"),
        Platform::Linux => path.append("/.config/"),
    }
    path.append(application);
    path.append("/claude_desktop_config.json");
    assert(path@ =~= start + config_suffix(platform, application@));
    path
}

/// Why the configuration file cannot be located.
pub open spec fn missing_base_text(platform: Platform) -> Seq<char> {
    match platform {
        Platform::Windows => "Could not find APPDATA directory"@,
        _ => "Could not find home directory"@,
    }
}

/// The path of the configuration file, for reading and writing: without the base variable
/// there is no such path, and the message says which directory is missing.
pub fn locate_config(platform: Platform, base: Option<&str>, application: &str) -> (located: Result<
    String,
    String,
>)
    ensures
        match located {
            Ok(path) => base is Some && path@ == base->0@ + config_suffix(
                platform,
                application@,
            ),
            Err(message) => base is None && message@ == missing_base_text(platform),
        },
{
    match base {
        Some(directory) => Ok(get_config_path(platform, Some(directory), application)),
        None => match platform {
            Platform::Windows => Err(String::from_str("Could not find APPDATA directory")),
            _ => Err(String::from_str("Could not find home directory")),
        },
    }
}

/// The path of the backup that belongs to a configuration file.
pub fn backup_path(config_path: &str) -> (path: String)
    ensures
        path@ == config_path@ + ".backup"@,
{
    let mut path = String::from_str(config_path);
    path.append(".backup");
    path
}

} // verus!
