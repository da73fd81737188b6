use mcp_supervisor::env_check::{
    after_install, check_claude_installed, install_base_variable, install_candidates,
    install_environment, tool_check, EnvCheckResult, InstallError, InstallPlan, Tool,
    VERSION_FLAG,
};
use mcp_supervisor::platform::Platform;

#[test]
fn tools_are_known_by_name() {
    assert_eq!(Tool::from_name("python"), Some(Tool::Python));
    assert_eq!(Tool::from_name("node"), Some(Tool::Node));
    assert_eq!(Tool::from_name("uv"), Some(Tool::Uv));
    assert_eq!(Tool::from_name("Python"), None);
    assert_eq!(Tool::from_name("ruby"), None);
    assert_eq!(Tool::from_name(""), None);
}

#[test]
fn executables_by_platform() {
    assert_eq!(Tool::Python.executable(Platform::Windows), "python");
    assert_eq!(Tool::Python.executable(Platform::MacOs), "python3");
    assert_eq!(Tool::Python.executable(Platform::Linux), "python3");
    for platform in [Platform::Windows, Platform::MacOs, Platform::Linux] {
        assert_eq!(Tool::Node.executable(platform), "node");
        assert_eq!(Tool::Uv.executable(platform), "uv");
    }
    assert_eq!(VERSION_FLAG, "--version");
}

#[test]
fn found_tool_reports_its_trimmed_version() {
    assert_eq!(
        tool_check(Tool::Python, Some("Python 3.11.4\n")),
        EnvCheckResult {
            is_installed: true,
            version: "Python 3.11.4".to_string(),
            install_url: "https://www.python.org/downloads/".to_string(),
        }
    );
    assert_eq!(
        tool_check(Tool::Node, Some("  v20.11.0\r\n")),
        EnvCheckResult {
            is_installed: true,
            version: "v20.11.0".to_string(),
            install_url: "https://nodejs.org/".to_string(),
        }
    );
    assert_eq!(
        tool_check(Tool::Uv, Some("")),
        EnvCheckResult {
            is_installed: true,
            version: String::new(),
            install_url: "https://github.com/astral-sh/uv".to_string(),
        }
    );
}

#[test]
fn missing_tool_says_so() {
    for (tool, url) in [
        (Tool::Python, "https://www.python.org/downloads/"),
        (Tool::Node, "https://nodejs.org/"),
        (Tool::Uv, "https://github.com/astral-sh/uv"),
    ] {
        assert_eq!(
            tool_check(tool, None),
            EnvCheckResult {
                is_installed: false,
                version: "未安装".to_string(),
                install_url: url.to_string(),
            }
        );
    }
}

#[test]
fn installation_is_planned_with_brew_on_macos() {
    for (kind, tool, package) in [
        ("python", Tool::Python, "python@3.11"),
        ("node", Tool::Node, "node@20"),
        ("uv", Tool::Uv, "uv"),
    ] {
        assert_eq!(
            install_environment(Platform::MacOs, kind),
            Ok(InstallPlan {
                tool,
                program: "brew".to_string(),
                arguments: vec!["install".to_string(), package.to_string()],
            })
        );
    }
}

#[test]
fn installation_is_refused_elsewhere() {
    for platform in [Platform::Windows, Platform::Linux] {
        for kind in ["python", "node", "uv"] {
            let error = install_environment(platform, kind).unwrap_err();
            assert_eq!(error, InstallError::UnsupportedPlatform);
            assert_eq!(error.message(), "暂不支持此系统的自动安装");
        }
    }
}

#[test]
fn unknown_kind_is_refused_on_every_platform() {
    for platform in [Platform::MacOs, Platform::Windows, Platform::Linux] {
        let error = install_environment(platform, "ruby").unwrap_err();
        assert_eq!(error, InstallError::UnsupportedKind);
        assert_eq!(error.message(), "不支持的环境类型");
    }
}

#[test]
fn after_the_installer_the_tool_is_checked_again() {
    assert_eq!(after_install(Tool::Node, true), Ok(Tool::Node));
    assert_eq!(after_install(Tool::Node, false), Err(InstallError::InstallFailed));
    assert_eq!(InstallError::InstallFailed.message(), "安装失败");
}

#[test]
fn application_is_looked_for_by_platform() {
    assert_eq!(install_base_variable(Platform::MacOs), "HOME");
    assert_eq!(install_base_variable(Platform::Linux), "HOME");
    assert_eq!(install_base_variable(Platform::Windows), "ProgramFiles");
    assert_eq!(
        install_candidates(Platform::MacOs, "/Users/me", "Desktop", "desktop"),
        vec!["/Applications/Desktop.app", "/Users/me/Applications/Desktop.app"]
    );
    assert_eq!(
        install_candidates(Platform::Windows, "C:/Program Files", "Desktop", "desktop"),
        vec!["C:/Program Files/Desktop/Desktop.exe"]
    );
    assert_eq!(
        install_candidates(Platform::Linux, "/home/me", "Desktop", "desktop"),
        vec!["/usr/bin/desktop", "/home/me/.local/bin/desktop"]
    );
    assert_eq!(
        install_candidates(Platform::Linux, "", "Desktop", "desktop"),
        vec!["/usr/bin/desktop", "/.local/bin/desktop"]
    );
}

#[test]
fn application_is_installed_where_any_place_holds_it() {
    let url = "https://example.org/download";
    assert!(!check_claude_installed(&vec![], url).is_installed);
    assert!(!check_claude_installed(&vec![false, false], url).is_installed);
    assert!(check_claude_installed(&vec![true, false], url).is_installed);
    assert!(check_claude_installed(&vec![false, true], url).is_installed);
    assert!(check_claude_installed(&vec![true], url).is_installed);
    assert_eq!(check_claude_installed(&vec![true], url).install_url, url);
}
