use mcp_supervisor::config::{ClaudeConfig, ConfigValue};
use mcp_supervisor::installed::{
    get_installed_server, remove_installed_server, save_installed_server, InstalledMcpServer,
    StoreError, SERVERS_KEY, STORE_PATH,
};
use mcp_supervisor::name_map::NameMap;
use mcp_supervisor::templates::{
    check_response, install_mcp_server, installed_record, server_entry, template_query, ApiData,
    ApiResponse, CatalogueError, McpServerTemplate, PaginationParams, TEMPLATES_URL,
};

fn template(name: &str, env: Option<Vec<(&str, &str)>>) -> McpServerTemplate {
    McpServerTemplate {
        id: "t-1".to_string(),
        name: name.to_string(),
        description: "Reads files".to_string(),
        command: "npx".to_string(),
        args: vec!["-y".to_string(), "server-files".to_string()],
        env: env.map(|pairs| {
            let mut table = NameMap::new();
            for (key, value) in pairs {
                table.insert(key.to_string(), value.to_string());
            }
            table
        }),
        require_file_path: true,
        repo_url: "https://example.org/files".to_string(),
        created_at: "2024-01-01".to_string(),
        updated_at: "2024-02-01".to_string(),
        downloads: 12,
        total_usage_time: 340,
    }
}

fn pair(name: &str, value: &str) -> (String, String) {
    (name.to_string(), value.to_string())
}

fn text_of(value: Option<&ConfigValue>) -> Option<&str> {
    match value {
        Some(ConfigValue::Text(text)) => Some(text.as_str()),
        _ => None,
    }
}

#[test]
fn catalogue_address() {
    assert_eq!(TEMPLATES_URL, "http://127.0.0.1:3988/api/v1/templates");
}

#[test]
fn query_holds_page_and_size() {
    let params =
        PaginationParams { page: 1, page_size: 20, keyword: None, require_file_path: None };
    assert_eq!(template_query(&params), vec![pair("page", "1"), pair("page_size", "20")]);
}

#[test]
fn query_adds_the_filters_that_are_set() {
    let params = PaginationParams {
        page: 3,
        page_size: 50,
        keyword: Some("git hub".to_string()),
        require_file_path: Some(true),
    };
    assert_eq!(
        template_query(&params),
        vec![
            pair("page", "3"),
            pair("page_size", "50"),
            pair("keyword", "git hub"),
            pair("require_file_path", "true"),
        ]
    );
    let params = PaginationParams {
        page: 0,
        page_size: 4294967295,
        keyword: None,
        require_file_path: Some(false),
    };
    assert_eq!(
        template_query(&params),
        vec![pair("page", "0"), pair("page_size", "4294967295"), pair("require_file_path", "false")]
    );
}

#[test]
fn answer_with_code_zero_carries_the_page() {
    let response = ApiResponse {
        code: 0,
        msg: "ok".to_string(),
        data: ApiData { total: 1, list: vec![template("files", None)] },
    };
    let page = check_response(response).unwrap();
    assert_eq!(page.total, 1);
    assert_eq!(page.list.len(), 1);
    assert_eq!(page.list[0].name, "files");
}

#[test]
fn answer_with_another_code_fails_with_its_message() {
    for code in [1, -1, 500] {
        let response = ApiResponse {
            code,
            msg: "catalogue is closed".to_string(),
            data: ApiData { total: 0, list: vec![] },
        };
        let error = check_response(response).unwrap_err();
        assert_eq!(error, CatalogueError::Rejected { message: "catalogue is closed".to_string() });
        assert_eq!(error.message(), "catalogue is closed");
    }
}

#[test]
fn catalogue_errors_embed_the_reason() {
    assert_eq!(
        CatalogueError::FetchFailed { reason: "connection refused".to_string() }.message(),
        "Failed to fetch templates: connection refused"
    );
    assert_eq!(
        CatalogueError::ParseFailed { reason: "EOF".to_string() }.message(),
        "Failed to parse response: EOF"
    );
}

#[test]
fn record_copies_the_template() {
    let template = template("files", Some(vec![("ROOT", "/tmp")]));
    let record = installed_record(&template);
    assert_eq!(record.id, "t-1");
    assert_eq!(record.name, "files");
    assert_eq!(record.command, "npx");
    assert_eq!(record.args, vec!["-y", "server-files"]);
    assert_eq!(record.env, template.env);
    assert!(record.require_file_path);
    assert_eq!(record.repo_url, "https://example.org/files");
}

#[test]
fn entry_holds_command_and_args() {
    let entry = server_entry(&template("files", None));
    assert_eq!(entry.keys(), vec!["args".to_string(), "command".to_string()]);
    assert_eq!(text_of(entry.get("command")), Some("npx"));
    match entry.get("args") {
        Some(ConfigValue::List(items)) => {
            assert_eq!(items.len(), 2);
            assert_eq!(text_of(items.get(0)), Some("-y"));
            assert_eq!(text_of(items.get(1)), Some("server-files"));
        }
        other => panic!("args are {other:?}"),
    }
}

#[test]
fn entry_holds_the_environment_only_when_there_is_one() {
    let empty = server_entry(&template("files", Some(vec![])));
    assert!(!empty.contains_key("env"));
    assert_eq!(empty.len(), 2);

    let entry = server_entry(&template("files", Some(vec![("ROOT", "/tmp"), ("MODE", "ro")])));
    assert_eq!(entry.len(), 3);
    match entry.get("env") {
        Some(ConfigValue::Table(table)) => {
            assert_eq!(table.keys(), vec!["MODE".to_string(), "ROOT".to_string()]);
            assert_eq!(text_of(table.get("ROOT")), Some("/tmp"));
            assert_eq!(text_of(table.get("MODE")), Some("ro"));
        }
        other => panic!("env is {other:?}"),
    }
}

#[test]
fn installing_puts_the_entry_under_the_name() {
    let mut old_entry = NameMap::new();
    old_entry.insert("command".to_string(), ConfigValue::Text("old".to_string()));
    let mut mcp_servers = NameMap::new();
    mcp_servers.insert("files".to_string(), old_entry);
    let mut other = NameMap::new();
    other.insert("command".to_string(), ConfigValue::Text("keep".to_string()));
    mcp_servers.insert("other".to_string(), other);
    let mut config = ClaudeConfig { mcp_servers, global_shortcut: "Ctrl+Space".to_string() };

    install_mcp_server(&mut config, &template("files", None));
    assert_eq!(config.mcp_servers.len(), 2);
    assert_eq!(text_of(config.mcp_servers.get("files").unwrap().get("command")), Some("npx"));
    assert_eq!(text_of(config.mcp_servers.get("other").unwrap().get("command")), Some("keep"));
    assert_eq!(config.global_shortcut, "Ctrl+Space");

    install_mcp_server(&mut config, &template("fresh", None));
    assert_eq!(
        config.mcp_servers.keys(),
        vec!["files".to_string(), "fresh".to_string(), "other".to_string()]
    );
}

fn record(name: &str, command: &str) -> InstalledMcpServer {
    InstalledMcpServer {
        id: format!("id-{name}"),
        name: name.to_string(),
        command: command.to_string(),
        args: vec![],
        env: None,
        require_file_path: false,
        repo_url: String::new(),
    }
}

#[test]
fn store_names() {
    assert_eq!(STORE_PATH, ".mcp.servers.dat");
    assert_eq!(SERVERS_KEY, "installed_servers");
}

#[test]
fn store_errors_embed_the_reason() {
    assert_eq!(
        StoreError::OpenFailed { reason: "denied".to_string() }.message(),
        "Failed to create store: denied"
    );
    assert_eq!(
        StoreError::SaveFailed { reason: "denied".to_string() }.message(),
        "Failed to save store: denied"
    );
}

#[test]
fn records_are_kept_by_name() {
    let mut servers = NameMap::new();
    save_installed_server(&mut servers, record("files", "npx"));
    save_installed_server(&mut servers, record("git", "uvx"));
    assert_eq!(servers.len(), 2);
    assert_eq!(get_installed_server(&servers, "files").unwrap().command, "npx");
    assert_eq!(get_installed_server(&servers, "git").unwrap().id, "id-git");
    assert!(get_installed_server(&servers, "other").is_none());

    save_installed_server(&mut servers, record("files", "node"));
    assert_eq!(servers.len(), 2);
    assert_eq!(get_installed_server(&servers, "files").unwrap().command, "node");
}

#[test]
fn records_are_dropped_by_name() {
    let mut servers = NameMap::new();
    save_installed_server(&mut servers, record("files", "npx"));
    save_installed_server(&mut servers, record("git", "uvx"));
    remove_installed_server(&mut servers, "files");
    assert!(get_installed_server(&servers, "files").is_none());
    assert_eq!(servers.keys(), vec!["git".to_string()]);
    remove_installed_server(&mut servers, "files");
    assert_eq!(servers.len(), 1);
}
