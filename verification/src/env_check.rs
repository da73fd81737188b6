//! Checks of the tools that servers need, and of the desktop application itself.
//!
//! Running a command and looking for a file are the caller's part. What to run, where to
//! look, and what the findings mean is decided here.

use vstd::prelude::*;
use crate::platform::Platform;
use crate::text::{same_text, trim, trimmed};

verus! {

/// What a check of one tool found.
#[derive(Debug, Clone, PartialEq, Eq)]
pub struct EnvCheckResult {
    pub is_installed: bool,
    /// The version as the tool prints it, or a note that the tool is missing.
    pub version: String,
    pub install_url: String,
}

/// What a check of the desktop application found.
#[derive(Debug, Clone, PartialEq, Eq)]
pub struct ClaudeCheckResult {
    pub is_installed: bool,
    pub install_url: String,
}

/// A tool that servers are run with.
#[derive(Debug, Clone, Copy, PartialEq, Eq, Structural)]
pub enum Tool {
    Python,
    Node,
    Uv,
}

/// Why a tool could not be installed.
#[derive(Debug, Clone, Copy, PartialEq, Eq, Structural)]
pub enum InstallError {
    /// The kind of environment is none of the known tools.
    UnsupportedKind,
    /// Tools are installed automatically on macOS only.
    UnsupportedPlatform,
    /// The installer ran and failed, or could not be run.
    InstallFailed,
}

/// The command that installs a tool.
#[derive(Debug, Clone, PartialEq, Eq)]
pub struct InstallPlan {
    pub tool: Tool,
    pub program: String,
    pub arguments: Vec<String>,
}

impl Tool {
    /// The tool that a kind of environment names.
    pub open spec fn named(kind: Seq<char>) -> Option<Tool> {
        if kind == "python"@ {
            Some(Tool::Python)
        } else if kind == "node"@ {
            Some(Tool::Node)
        } else if kind == "uv"@ {
            Some(Tool::Uv)
        } else {
            None
        }
    }

    pub fn from_name(kind: &str) -> (tool: Option<Tool>)
        ensures
            tool == Tool::named(kind@),
    {
        if same_text(kind, "python") {
            Some(Tool::Python)
        } else if same_text(kind, "node") {
            Some(Tool::Node)
        } else if same_text(kind, "uv") {
            Some(Tool::Uv)
        } else {
            None
        }
    }

    /// The program to run for the tool.
    pub open spec fn executable_text(self, platform: Platform) -> Seq<char> {
        match self {
            Tool::Python => if platform is Windows {
                "python"@
            } else {
                "python3"@
            },
            Tool::Node => "node"@,
            Tool::Uv => "uv"@,
        }
    }

    pub fn executable(self, platform: Platform) -> (program: &'static str)
        ensures
            program@ == self.executable_text(platform),
    {
        match self {
            Tool::Python => match platform {
                Platform::Windows => "python",
                _ => "python3",
            },
            Tool::Node => "node",
            Tool::Uv => "uv",
        }
    }

    /// Where the tool can be had.
    pub open spec fn install_url_text(self) -> Seq<char> {
        match self {
            Tool::Python => "https://www.python.org/downloads/"@,
            Tool::Node => "https://nodejs.org/"@,
            Tool::Uv => "https://github.com/astral-sh/uv"@,
        }
    }

    pub fn install_url(self) -> (url: &'static str)
        ensures
            url@ == self.install_url_text(),
    {
        match self {
            Tool::Python => "https://www.python.org/downloads/",
            Tool::Node => "https://nodejs.org/",
            Tool::Uv => "https://github.com/astral-sh/uv",
        }
    }

    /// The package that the installer knows the tool by.
    pub open spec fn package_text(self) -> Seq<char> {
        match self {
            Tool::Python => "python@3.11"@,
            Tool::Node => "node@20"@,
            Tool::Uv => "uv"@,
        }
    }

    pub fn package(self) -> (name: &'static str)
        ensures
            name@ == self.package_text(),
    {
        match self {
            Tool::Python => "python@3.11",
            Tool::Node => "node@20",
            Tool::Uv => "uv",
        }
    }
}

/// The argument that makes a tool print its version.
pub const VERSION_FLAG: &'static str = "--version";

/// What stands in place of the version of a tool that is missing.
pub open spec fn missing_text() -> Seq<char> {
    "未安装"@
}

/// The result of checking a tool. `output` is what the tool printed when asked for its
/// version, where it could be run and ended in success.
pub fn tool_check(tool: Tool, output: Option<&str>) -> (result: EnvCheckResult)
    ensures
        result.is_installed == output is Some,
        result.version@ == match output {
            Some(printed) => trimmed(printed@),
            None => missing_text(),
        },
        result.install_url@ == tool.install_url_text(),
{
    let install_url = String::from_str(tool.install_url());
    match output {
        Some(printed) => EnvCheckResult { is_installed: true, version: trim(printed), install_url },
        None => EnvCheckResult {
            is_installed: false,
            version: String::from_str("未安装"),
            install_url,
        },
    }
}

impl InstallError {
    pub open spec fn message_text(self) -> Seq<char> {
        match self {
            InstallError::UnsupportedKind => "不支持的环境类型"@,
            InstallError::UnsupportedPlatform => "暂不支持此系统的自动安装"@,
            InstallError::InstallFailed => "安装失败"@,
        }
    }

    /// The message shown to the caller.
    pub fn message(&self) -> (text: String)
        ensures
            text@ == self.message_text(),
    {
        match self {
            InstallError::UnsupportedKind => String::from_str("不支持的环境类型"),
            InstallError::UnsupportedPlatform => String::from_str("暂不支持此系统的自动安装"),
            InstallError::InstallFailed => String::from_str("安装失败"),
        }
    }
}

/// Whether the plan is the one that installs the tool: `brew install` and the package.
pub open spec fn installs(plan: InstallPlan, tool: Tool) -> bool {
    &&& plan.tool == tool
    &&& plan.program@ == "brew"@
    &&& plan.arguments.len() == 2
    &&& plan.arguments[0]@ == "install"@
    &&& plan.arguments[1]@ == tool.package_text()
}

/// Decides how to install the kind of environment that was asked for. The kind is looked
/// at first, the platform second.
pub fn install_environment(platform: Platform, kind: &str) -> (plan: Result<
    InstallPlan,
    InstallError,
>)
    ensures
        match plan {
            Ok(plan) => Tool::named(kind@) is Some && platform is MacOs && installs(
                plan,
                Tool::named(kind@)->0,
            ),
            Err(InstallError::UnsupportedKind) => Tool::named(kind@) is None,
            Err(InstallError::UnsupportedPlatform) => Tool::named(kind@) is Some && !(platform
                is MacOs),
            Err(InstallError::InstallFailed) => false,
        },
{
    let tool = match Tool::from_name(kind) {
        Some(tool) => tool,
        None => {
            return Err(InstallError::UnsupportedKind);
        },
    };
    match platform {
        Platform::MacOs => {
            let mut arguments: Vec<String> = Vec::new();
            arguments.push(String::from_str("install"));
            arguments.push(String::from_str(tool.package()));
            Ok(InstallPlan { tool, program: String::from_str("brew"), arguments })
        },
        _ => Err(InstallError::UnsupportedPlatform),
    }
}

/// What follows the run of the installer: after a success the tool is checked again, and
/// anything else is a failure.
pub fn after_install(tool: Tool, succeeded: bool) -> (next: Result<Tool, InstallError>)
    ensures
        succeeded ==> next == Ok::<Tool, InstallError>(tool),
        !succeeded ==> next == Err::<Tool, InstallError>(InstallError::InstallFailed),
{
    if succeeded {
        Ok(tool)
    } else {
        Err(InstallError::InstallFailed)
    }
}

/// The variable that names the directory below which the application is looked for.
pub open spec fn install_base_text(platform: Platform) -> Seq<char> {
    match platform {
        Platform::Windows => "ProgramFiles"@,
        _ => "HOME"@,
    }
}

pub fn install_base_variable(platform: Platform) -> (name: &'static str)
    ensures
        name@ == install_base_text(platform),
{
    match platform {
        Platform::Windows => "ProgramFiles",
        _ => "HOME",
    }
}

/// The places where the desktop application is looked for, in order. `base` is the value
/// of the platform's variable, empty where it is not set; `application` is the name the
/// application is installed under, and `binary` the name of its program on Linux.
pub open spec fn candidate_texts(
    platform: Platform,
    base: Seq<char>,
    application: Seq<char>,
    binary: Seq<char>,
) -> Seq<Seq<char>> {
    match platform {
        Platform::MacOs => seq![
            "/Applications/"@ + application + ".app"@,
            base + "/Applications/"@ + application + ".app"@,
        ],
        Platform::Windows => seq![base + "/"@ + application + "/"@ + application + ".exe"@],
        Platform::Linux => seq!["/usr/bin/"@ + binary, base + "/.local/bin/"@ + binary],
    }
}

/// The texts of a sequence of strings.
pub open spec fn texts(strings: Seq<String>) -> Seq<Seq<char>> {
    strings.map_values(|text: String| text@)
}

/// Lists the places where the desktop application is looked for.
pub fn install_candidates(platform: Platform, base: &str, application: &str, binary: &str) -> (paths:
    Vec<String>)
    ensures
        texts(paths@) == candidate_texts(platform, base@, application@, binary@),
{
    let mut paths: Vec<String> = Vec::new();
    match platform {
        Platform::MacOs => {
            let mut shared = String::from_str("/Applications/");
            shared.append(application);
            shared.append(".app");
            let mut own = String::from_str(base);
            own.append("/Applications/");
            own.append(application);
            own.append(".app");
            paths.push(shared);
            paths.push(own);
        },
        Platform::Windows => {
            let mut path = String::from_str(base);
            path.append("/");
            path.append(application);
            path.append("/");
            path.append(application);
            path.append(".exe");
            paths.push(path);
        },
        Platform::Linux => {
            let mut shared = String::from_str("/usr/bin/");
            shared.append(binary);
            let mut own = String::from_str(base);
            own.append("/.local/bin/");
            own.append(binary);
            paths.push(shared);
            paths.push(own);
        },
    }
    assert(texts(paths@) =~= candidate_texts(platform, base@, application@, binary@));
    paths
}

/// The result of looking for the desktop application: it is installed where any of the
/// places holds it. `found` tells of each place in turn whether something is there.
pub fn check_claude_installed(found: &Vec<bool>, install_url: &str) -> (result: ClaudeCheckResult)
    ensures
        result.is_installed == (exists|i: int| 0 <= i < found.len() && found[i]),
        result.install_url@ == install_url@,
{
    let mut is_installed = false;
    let mut i: usize = 0;
    while i < found.len()
        invariant
            i <= found.len(),
            is_installed == (exists|k: int| 0 <= k < i && found[k]),
        decreases found.len() - i,
    {
        if found[i] {
            is_installed = true;
        }
        i += 1;
    }
    ClaudeCheckResult { is_installed, install_url: String::from_str(install_url) }
}

} // verus!
