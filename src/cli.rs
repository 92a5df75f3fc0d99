//! The command line as plain data: global options and subcommands.
use vstd::prelude::*;

use crate::config::{opt_str, opt_text, Config};
use crate::settings::{resolution, resolve, EffectiveConfig};

verus! {

/// How results are rendered.
#[derive(Debug, Clone, Copy, PartialEq, Eq, Structural)]
pub enum OutputFormat {
    Json,
    Table,
    Markdown,
}

/// Operations on entries.
#[derive(Debug, Clone)]
pub enum EntryCommands {
    /// One page of entries matching the filters.
    List {
        query: Option<String>,
        category: Vec<String>,
        tag: Option<String>,
        size: u32,
        cursor: Option<String>,
    },
    /// One entry, structured or as raw markdown.
    Get { id: u64, markdown: bool },
    /// A new entry from a file, standard input or an editor.
    Create { file: String, edit: bool },
    /// A replaced entry, or only its summary.
    Update { id: u64, file: String, edit: bool, summary: Option<String> },
    /// Removal of an entry, confirmed unless forced.
    Delete { id: u64, force: bool },
    /// Entries matching a free-text query.
    Search { query: String, interactive: bool },
    /// The template of a new entry.
    Template,
}

/// Operations on categories.
#[derive(Debug, Clone, Copy, PartialEq, Eq, Structural)]
pub enum CategoryCommands {
    List,
}

/// Operations on tags.
#[derive(Debug, Clone, Copy, PartialEq, Eq, Structural)]
pub enum TagCommands {
    /// All tags with their counts, optionally by descending count.
    List { sort: bool },
}

/// Operations on the configuration document.
#[derive(Debug, Clone)]
pub enum ConfigCommands {
    Init { force: bool },
    Show { show_secrets: bool },
    SetValue { key: String, value: String },
}

/// The subcommands.
#[derive(Debug, Clone)]
pub enum Commands {
    Entry { command: EntryCommands },
    Category { command: CategoryCommands },
    Tag { command: TagCommands },
    Config { command: ConfigCommands },
}

/// One invocation: global options, each explicit value already merged with
/// its environment variable, and the subcommand.
#[derive(Debug, Clone)]
pub struct Cli {
    pub config: Option<String>,
    pub tenant: Option<String>,
    pub url: Option<String>,
    pub user: Option<String>,
    pub password: Option<String>,
    pub profile: Option<String>,
    pub format: OutputFormat,
    pub verbose: bool,
    pub command: Commands,
}

impl Cli {
    /// The settings of this invocation under the configuration document.
    pub fn settings(&self, config: &Config) -> (r: EffectiveConfig)
        ensures
            r@ == resolution(
                opt_text(self.url),
                opt_text(self.tenant),
                opt_text(self.user),
                opt_text(self.password),
                opt_text(self.profile),
                config@,
            ),
    {
        let profile: Option<&str> = match &self.profile {
            Some(p) => Some(p.as_str()),
            None => None,
        };
        assert(opt_str(profile) == opt_text(self.profile));
        resolve(
            self.url.clone(),
            self.tenant.clone(),
            self.user.clone(),
            self.password.clone(),
            profile,
            config,
        )
    }
}

} // verus!
