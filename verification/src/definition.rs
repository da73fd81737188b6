//! What it takes to start one server, and how that is read out of the configuration.

use vstd::prelude::*;
use crate::config::{ClaudeConfig, ConfigValue};
use crate::name_map::{has_name, lemma_has_name_take, NameMap};

verus! {

/// The command line and environment of one server.
#[derive(Debug)]
pub struct ServerDefinition {
    pub command: String,
    /// The arguments, in order.
    pub args: Vec<String>,
    /// Entries to add to the environment of the process, if any are configured.
    pub env: Option<NameMap<String>>,
}

/// Why no definition could be read for a name.
#[derive(Debug, Clone, PartialEq, Eq)]
pub enum DefinitionError {
    /// The configuration has no server of that name.
    ServerNotFound { name: String },
    /// The server's entry has no `command`, or one that is not a text.
    CommandMissing,
    /// The server's entry has no `args`, or one that is not a list.
    ArgsMissing,
}

impl DefinitionError {
    pub open spec fn message_text(self) -> Seq<char> {
        match self {
            DefinitionError::ServerNotFound { name } => "Server "@ + name@ + " not found"@,
            DefinitionError::CommandMissing => "Command not found in config"@,
            DefinitionError::ArgsMissing => "Args not found in config"@,
        }
    }

    /// The message shown to the caller.
    pub fn message(&self) -> (text: String)
        ensures
            text@ == self.message_text(),
    {
        match self {
            DefinitionError::ServerNotFound { name } => {
                let mut text = String::from_str("Server ");
                text.append(name.as_str());
                text.append(" not found");
                text
            },
            DefinitionError::CommandMissing => String::from_str("Command not found in config"),
            DefinitionError::ArgsMissing => String::from_str("Args not found in config"),
        }
    }
}

/// The texts among the items, in order; items that are no texts are passed over.
pub open spec fn texts_in(items: Seq<ConfigValue>) -> Seq<String>
    decreases items.len(),
{
    if items.len() == 0 {
        Seq::empty()
    } else {
        match items.last() {
            ConfigValue::Text(text) => texts_in(items.drop_last()).push(text),
            _ => texts_in(items.drop_last()),
        }
    }
}

/// The entries of the table whose values are texts.
pub open spec fn text_entries(table: Map<Seq<char>, ConfigValue>) -> Map<Seq<char>, String> {
    Map::new(
        |key: Seq<char>| table.contains_key(key) && table[key] is Text,
        |key: Seq<char>| table[key]->Text_0,
    )
}

/// The command that a server's entry names.
pub open spec fn command_of(entry: Map<Seq<char>, ConfigValue>) -> Option<String> {
    if entry.contains_key("command"@) && entry["command"@] is Text {
        Some(entry["command"@]->Text_0)
    } else {
        None
    }
}

/// The arguments that a server's entry lists.
pub open spec fn args_of(entry: Map<Seq<char>, ConfigValue>) -> Option<Seq<String>> {
    if entry.contains_key("args"@) && entry["args"@] is List {
        Some(texts_in(entry["args"@]->List_0@))
    } else {
        None
    }
}

/// The environment entries that a server's entry holds.
pub open spec fn env_of(entry: Map<Seq<char>, ConfigValue>) -> Option<Map<Seq<char>, String>> {
    if entry.contains_key("env"@) && entry["env"@] is Table {
        Some(text_entries(entry["env"@]->Table_0@))
    } else {
        None
    }
}

/// Whether the definition is the one that the entry holds.
pub open spec fn defined_by(definition: ServerDefinition, entry: Map<Seq<char>, ConfigValue>) -> bool {
    &&& command_of(entry) == Some(definition.command)
    &&& args_of(entry) == Some(definition.args@)
    &&& match definition.env {
        Some(env) => env_of(entry) == Some(env@),
        None => env_of(entry) is None,
    }
}

fn collect_texts(items: &Vec<ConfigValue>) -> (texts: Vec<String>)
    ensures
        texts@ == texts_in(items@),
{
    let mut texts: Vec<String> = Vec::new();
    let mut i: usize = 0;
    while i < items.len()
        invariant
            i <= items.len(),
            texts@ == texts_in(items@.take(i as int)),
        decreases items.len() - i,
    {
        proof {
            assert(items@.take(i + 1).drop_last() =~= items@.take(i as int));
        }
        match &items[i] {
            ConfigValue::Text(text) => {
                texts.push(text.clone());
            },
            _ => {},
        }
        i += 1;
    }
    assert(items@.take(items.len() as int) =~= items@);
    texts
}

fn collect_text_entries(table: &NameMap<ConfigValue>) -> (entries: NameMap<String>)
    ensures
        entries@ == text_entries(table@),
{
    let keys = table.keys();
    let mut entries: NameMap<String> = NameMap::new();
    let mut i: usize = 0;
    while i < keys.len()
        invariant
            i <= keys.len(),
            forall|key: Seq<char>| table@.contains_key(key) <==> has_name(keys@, key),
            forall|key: Seq<char>|
                entries@.contains_key(key) <==> text_entries(table@).contains_key(key) && has_name(
                    keys@.take(i as int),
                    key,
                ),
            forall|key: Seq<char>| #[trigger]
                entries@.contains_key(key) ==> entries@[key] == text_entries(table@)[key],
        decreases keys.len() - i,
    {
        let ghost before = entries@;
        let key = &keys[i];
        assert(has_name(keys@, key@));
        match table.get(key.as_str()) {
            Some(ConfigValue::Text(text)) => {
                entries.insert(key.clone(), text.clone());
            },
            _ => {},
        }
        proof {
            lemma_has_name_take(keys@, i as int);
        }
        i += 1;
    }
    proof {
        assert(keys@.take(keys.len() as int) =~= keys@);
        assert(entries@ =~= text_entries(table@));
    }
    entries
}

/// Reads the definition of the named server out of the configuration.
///
/// The command must be a text and the arguments a list; of the list only the texts count.
/// The environment is taken where the entry holds a table under `env`, and of that table
/// only the entries whose values are texts.
pub fn get_definition(config: &ClaudeConfig, name: &str) -> (result: Result<
    ServerDefinition,
    DefinitionError,
>)
    ensures
        match result {
            Ok(definition) => config.mcp_servers@.contains_key(name@) && defined_by(
                definition,
                config.mcp_servers@[name@]@,
            ),
            Err(DefinitionError::ServerNotFound { name: missing }) => missing@ == name@
                && !config.mcp_servers@.contains_key(name@),
            Err(DefinitionError::CommandMissing) => config.mcp_servers@.contains_key(name@)
                && command_of(config.mcp_servers@[name@]@) is None,
            Err(DefinitionError::ArgsMissing) => config.mcp_servers@.contains_key(name@)
                && command_of(config.mcp_servers@[name@]@) is Some && args_of(
                config.mcp_servers@[name@]@,
            ) is None,
        },
{
    let entry = match config.mcp_servers.get(name) {
        Some(entry) => entry,
        None => {
            return Err(DefinitionError::ServerNotFound { name: name.to_owned() });
        },
    };
    let command = match entry.get("command") {
        Some(ConfigValue::Text(text)) => text.clone(),
        _ => {
            return Err(DefinitionError::CommandMissing);
        },
    };
    let args = match entry.get("args") {
        Some(ConfigValue::List(items)) => collect_texts(items),
        _ => {
            return Err(DefinitionError::ArgsMissing);
        },
    };
    let env = match entry.get("env") {
        Some(ConfigValue::Table(table)) => Some(collect_text_entries(table)),
        _ => None,
    };
    Ok(ServerDefinition { command, args, env })
}

} // verus!
