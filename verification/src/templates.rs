//! Server templates: how the catalogue is asked for them, what its answer means, and what
//! installing one puts into the configuration.

use vstd::prelude::*;
use crate::config::{ClaudeConfig, ConfigValue};
use crate::installed::InstalledMcpServer;
use crate::name_map::{has_name, lemma_has_name_take, NameMap};
use crate::text::{decimal, decimal_text};

verus! {

/// A server as the catalogue describes it.
#[derive(Debug, Clone)]
pub struct McpServerTemplate {
    pub id: String,
    pub name: String,
    pub description: String,
    pub command: String,
    pub args: Vec<String>,
    pub env: Option<NameMap<String>>,
    pub require_file_path: bool,
    pub repo_url: String,
    pub created_at: String,
    pub updated_at: String,
    pub downloads: i32,
    pub total_usage_time: i32,
}

/// One page of templates.
#[derive(Debug, Clone)]
pub struct ApiData {
    pub total: i32,
    pub list: Vec<McpServerTemplate>,
}

/// The catalogue's answer: a code, a message, and the page.
#[derive(Debug, Clone)]
pub struct ApiResponse {
    pub code: i32,
    pub msg: String,
    pub data: ApiData,
}

/// Which page to fetch, and what to filter by.
#[derive(Debug, Clone)]
pub struct PaginationParams {
    pub page: u32,
    pub page_size: u32,
    pub keyword: Option<String>,
    pub require_file_path: Option<bool>,
}

/// The address of the catalogue.
pub const TEMPLATES_URL: &'static str = "http://127.0.0.1:3988/api/v1/templates";

/// How a flag is written in a query.
pub open spec fn flag_text(flag: bool) -> Seq<char> {
    if flag {
        "true"@
    } else {
        "false"@
    }
}

/// The query parameters for the given page and filters, as names and values, in order:
/// the page, the page size, then the keyword and the file-path filter where they are set.
pub open spec fn query_text(params: PaginationParams) -> Seq<(Seq<char>, Seq<char>)> {
    let paging = seq![
        ("page"@, decimal_text(params.page as nat)),
        ("page_size"@, decimal_text(params.page_size as nat)),
    ];
    let keyword = match params.keyword {
        Some(word) => seq![("keyword"@, word@)],
        None => Seq::empty(),
    };
    let filter = match params.require_file_path {
        Some(flag) => seq![("require_file_path"@, flag_text(flag))],
        None => Seq::empty(),
    };
    paging + keyword + filter
}

/// The texts of a sequence of pairs.
pub open spec fn pair_texts(pairs: Seq<(String, String)>) -> Seq<(Seq<char>, Seq<char>)> {
    pairs.map_values(|pair: (String, String)| (pair.0@, pair.1@))
}

/// Makes the query parameters for the given page and filters.
pub fn template_query(params: &PaginationParams) -> (query: Vec<(String, String)>)
    ensures
        pair_texts(query@) == query_text(*params),
{
    let mut query: Vec<(String, String)> = Vec::new();
    query.push((String::from_str("page"), decimal(params.page)));
    query.push((String::from_str("page_size"), decimal(params.page_size)));
    match &params.keyword {
        Some(word) => {
            query.push((String::from_str("keyword"), word.clone()));
        },
        None => {},
    }
    match params.require_file_path {
        Some(flag) => {
            let text = if flag {
                "true"
            } else {
                "false"
            };
            query.push((String::from_str("require_file_path"), String::from_str(text)));
        },
        None => {},
    }
    assert(pair_texts(query@) =~= query_text(*params));
    query
}

/// Why no page of templates was had.
#[derive(Debug, Clone, PartialEq, Eq)]
pub enum CatalogueError {
    /// The request could not be sent, or no answer came.
    FetchFailed { reason: String },
    /// The answer could not be read.
    ParseFailed { reason: String },
    /// The catalogue answered with a code other than zero and this message.
    Rejected { message: String },
}

impl CatalogueError {
    pub open spec fn message_text(self) -> Seq<char> {
        match self {
            CatalogueError::FetchFailed { reason } => "Failed to fetch templates: "@ + reason@,
            CatalogueError::ParseFailed { reason } => "Failed to parse response: "@ + reason@,
            CatalogueError::Rejected { message } => message@,
        }
    }

    /// The message shown to the caller.
    pub fn message(&self) -> (text: String)
        ensures
            text@ == self.message_text(),
    {
        match self {
            CatalogueError::FetchFailed { reason } => {
                let mut text = String::from_str("Failed to fetch templates: ");
                text.append(reason.as_str());
                text
            },
            CatalogueError::ParseFailed { reason } => {
                let mut text = String::from_str("Failed to parse response: ");
                text.append(reason.as_str());
                text
            },
            CatalogueError::Rejected { message } => message.clone(),
        }
    }
}

/// Reads the catalogue's answer: code zero carries the page, any other code fails with the
/// answer's message.
pub fn check_response(response: ApiResponse) -> (page: Result<ApiData, CatalogueError>)
    ensures
        response.code == 0 ==> page == Ok::<ApiData, CatalogueError>(response.data),
        response.code != 0 ==> page == Err::<ApiData, CatalogueError>(
            CatalogueError::Rejected { message: response.msg },
        ),
{
    if response.code != 0 {
        Err(CatalogueError::Rejected { message: response.msg })
    } else {
        Ok(response.data)
    }
}

/// Whether the record is the one to keep of the template: the same in every field they share.
pub open spec fn records(record: InstalledMcpServer, template: McpServerTemplate) -> bool {
    &&& record.id == template.id
    &&& record.name == template.name
    &&& record.command == template.command
    &&& record.args@ == template.args@
    &&& match template.env {
        Some(env) => record.env is Some && record.env->0@ == env@,
        None => record.env is None,
    }
    &&& record.require_file_path == template.require_file_path
    &&& record.repo_url == template.repo_url
}

/// The record to keep of a template that is being installed.
pub fn installed_record(template: &McpServerTemplate) -> (record: InstalledMcpServer)
    ensures
        records(record, *template),
{
    let env = match &template.env {
        Some(env) => {
            let copy = env.clone();
            assert(copy@ =~= env@);
            Some(copy)
        },
        None => None,
    };
    let args = template.args.clone();
    assert(args@ =~= template.args@);
    InstalledMcpServer {
        id: template.id.clone(),
        name: template.name.clone(),
        command: template.command.clone(),
        args,
        env,
        require_file_path: template.require_file_path,
        repo_url: template.repo_url.clone(),
    }
}

/// Whether the template brings environment entries: it has a table, and the table is not
/// empty.
pub open spec fn brings_env(template: McpServerTemplate) -> bool {
    template.env is Some && template.env->0@ != Map::<Seq<char>, String>::empty()
}

/// Whether the entry is the one that installing the template writes: the command, the
/// arguments, and the environment where the template brings any.
pub open spec fn entry_of(entry: Map<Seq<char>, ConfigValue>, template: McpServerTemplate) -> bool {
    &&& forall|key: Seq<char>|
        entry.contains_key(key) <==> key == "command"@ || key == "args"@ || (key == "env"@
            && brings_env(template))
    &&& entry["command"@] == ConfigValue::Text(template.command)
    &&& entry["args"@] is List
    &&& entry["args"@]->List_0@ == template.args@.map_values(|text: String| ConfigValue::Text(text))
    &&& brings_env(template) ==> entry["env"@] is Table && entry["env"@]->Table_0@
        == template.env->0@.map_values(|text: String| ConfigValue::Text(text))
}

fn text_list(texts: &Vec<String>) -> (values: Vec<ConfigValue>)
    ensures
        values@ == texts@.map_values(|text: String| ConfigValue::Text(text)),
{
    let mut values: Vec<ConfigValue> = Vec::new();
    let mut i: usize = 0;
    while i < texts.len()
        invariant
            i <= texts.len(),
            values.len() == i,
            forall|k: int| 0 <= k < i ==> values[k] == ConfigValue::Text(texts[k]),
        decreases texts.len() - i,
    {
        values.push(ConfigValue::Text(texts[i].clone()));
        i += 1;
    }
    assert(values@ =~= texts@.map_values(|text: String| ConfigValue::Text(text)));
    values
}

fn text_table(texts: &NameMap<String>) -> (values: NameMap<ConfigValue>)
    ensures
        values@ == texts@.map_values(|text: String| ConfigValue::Text(text)),
{
    let keys = texts.keys();
    let mut values: NameMap<ConfigValue> = NameMap::new();
    let mut i: usize = 0;
    while i < keys.len()
        invariant
            i <= keys.len(),
            forall|key: Seq<char>| texts@.contains_key(key) <==> has_name(keys@, key),
            forall|key: Seq<char>|
                values@.contains_key(key) <==> has_name(keys@.take(i as int), key),
            forall|key: Seq<char>| #[trigger]
                values@.contains_key(key) ==> values@[key] == ConfigValue::Text(texts@[key]),
        decreases keys.len() - i,
    {
        let key = &keys[i];
        assert(has_name(keys@, key@));
        match texts.get(key.as_str()) {
            Some(text) => {
                values.insert(key.clone(), ConfigValue::Text(text.clone()));
            },
            None => {},
        }
        proof {
            lemma_has_name_take(keys@, i as int);
        }
        i += 1;
    }
    proof {
        assert(keys@.take(keys.len() as int) =~= keys@);
        assert(values@ =~= texts@.map_values(|text: String| ConfigValue::Text(text)));
    }
    values
}

/// The configuration entry that installing the template writes.
pub fn server_entry(template: &McpServerTemplate) -> (entry: NameMap<ConfigValue>)
    ensures
        entry_of(entry@, *template),
{
    let mut entry: NameMap<ConfigValue> = NameMap::new();
    entry.insert(String::from_str("command"), ConfigValue::Text(template.command.clone()));
    entry.insert(String::from_str("args"), ConfigValue::List(text_list(&template.args)));
    match &template.env {
        Some(env) => {
            if !env.is_empty() {
                entry.insert(String::from_str("env"), ConfigValue::Table(text_table(env)));
            }
        },
        None => {},
    }
    proof {
        reveal_strlit("command");
        reveal_strlit("args");
        reveal_strlit("env");
        assert("command"@ != "args"@) by {
            assert("command"@.len() == 7);
            assert("args"@.len() == 4);
        }
        assert("command"@ != "env"@) by {
            assert("env"@.len() == 3);
        }
        assert("args"@ != "env"@) by {
            assert("args"@.len() == 4);
            assert("env"@.len() == 3);
        }
    }
    entry
}

/// Installs the template into the configuration: its entry is put under its name, in place
/// of any entry the name had.
pub fn install_mcp_server(config: &mut ClaudeConfig, template: &McpServerTemplate)
    ensures
        final(config).global_shortcut == old(config).global_shortcut,
        final(config).mcp_servers@.dom() == old(config).mcp_servers@.dom().insert(template.name@),
        entry_of(final(config).mcp_servers@[template.name@]@, *template),
        forall|other: Seq<char>|
            other != template.name@ && old(config).mcp_servers@.contains_key(other)
                ==> final(config).mcp_servers@[other] == old(config).mcp_servers@[other],
{
    let entry = server_entry(template);
    config.mcp_servers.insert(template.name.clone(), entry);
}

} // verus!
