//! The registry as its backing file holds it: display defaults, and each
//! script as a value under its alias. The value has no alias of its own,
//! so key and value cannot disagree.

use crate::config::distinct_aliases;
use crate::config::has_alias;
use crate::config::Config;
use crate::script::clone_optional_strings;
use crate::script::Script;
use crate::script::ScriptView;
use vstd::prelude::*;

verus! {

/// The value that the backing file holds for one script.
#[derive(Debug, PartialEq, Eq)]
pub struct StoredScript {
    pub query: String,
    pub sources: Option<Vec<String>>,
    pub description: Option<String>,
    pub references: Option<Vec<String>>,
    pub tags: Option<Vec<String>>,
}

/// One script of the backing file: the alias that is its key, and its
/// value.
#[derive(Debug, PartialEq, Eq)]
pub struct StoredEntry {
    pub alias: String,
    pub script: StoredScript,
}

/// The content of a backing file.
#[derive(Debug, PartialEq, Eq)]
pub struct StoredConfig {
    pub query_width: Option<usize>,
    pub scripts: Vec<StoredEntry>,
}

/// Why the content of a backing file could not be had.
#[derive(Debug, PartialEq, Eq)]
pub enum LoadFailure {
    /// The file could not be read.
    Read { cause: String },
    /// What was read is not a registry.
    Parse { cause: String },
}

/// Why the content of a backing file could not be put in place.
#[derive(Debug, PartialEq, Eq)]
pub enum SaveFailure {
    /// The directory that is to hold the file could not be created.
    CreateDirectory { cause: String },
    /// The file could not be written.
    Write { cause: String },
}

/// What a [`StoredScript`] holds, as mathematical sequences of characters.
pub struct StoredScriptView {
    pub query: Seq<char>,
    pub sources: Option<Seq<Seq<char>>>,
    pub description: Option<Seq<char>>,
    pub references: Option<Seq<Seq<char>>>,
    pub tags: Option<Seq<Seq<char>>>,
}

/// What a [`StoredEntry`] holds.
pub struct StoredEntryView {
    pub alias: Seq<char>,
    pub script: StoredScriptView,
}

/// What a [`StoredConfig`] holds.
pub struct StoredConfigView {
    pub query_width: Option<usize>,
    pub scripts: Seq<StoredEntryView>,
}

impl View for StoredScript {
    type V = StoredScriptView;

    open spec fn view(&self) -> StoredScriptView {
        StoredScriptView {
            query: self.query@,
            sources: self.sources.deep_view(),
            description: self.description.deep_view(),
            references: self.references.deep_view(),
            tags: self.tags.deep_view(),
        }
    }
}

impl View for StoredEntry {
    type V = StoredEntryView;

    open spec fn view(&self) -> StoredEntryView {
        StoredEntryView { alias: self.alias@, script: self.script@ }
    }
}

impl View for StoredConfig {
    type V = StoredConfigView;

    open spec fn view(&self) -> StoredConfigView {
        StoredConfigView {
            query_width: self.query_width,
            scripts: Seq::new(self.scripts@.len(), |i: int| self.scripts@[i]@),
        }
    }
}

/// The entry that the backing file holds for `script`: its alias as the
/// key, and its other fields as the value.
pub open spec fn stored_entry(script: ScriptView) -> StoredEntryView {
    StoredEntryView {
        alias: script.alias,
        script: StoredScriptView {
            query: script.query,
            sources: script.sources,
            description: script.description,
            references: script.references,
            tags: script.tags,
        },
    }
}

/// The script that an entry of the backing file stands for: its value,
/// with the key as the alias.
pub open spec fn loaded_script(entry: StoredEntryView) -> ScriptView {
    ScriptView {
        alias: entry.alias,
        query: entry.script.query,
        sources: entry.script.sources,
        description: entry.script.description,
        references: entry.script.references,
        tags: entry.script.tags,
    }
}

/// What the backing file holds for a registry with the scripts `entries`
/// and the display width `query_width`.
pub open spec fn stored_form(
    entries: Seq<ScriptView>,
    query_width: Option<usize>,
) -> StoredConfigView {
    StoredConfigView {
        query_width,
        scripts: Seq::new(entries.len(), |i: int| stored_entry(entries[i])),
    }
}

/// The scripts that the entries of a backing file stand for, in their
/// order.
pub open spec fn loaded_entries(scripts: Seq<StoredEntryView>) -> Seq<ScriptView> {
    Seq::new(scripts.len(), |i: int| loaded_script(scripts[i]))
}

/// Position `at` holds the first entry of `scripts` whose alias an earlier
/// entry has too.
pub open spec fn is_first_repeat(scripts: Seq<StoredEntryView>, at: int) -> bool {
    &&& 0 <= at < scripts.len()
    &&& distinct_aliases(loaded_entries(scripts.take(at)))
    &&& has_alias(loaded_entries(scripts.take(at)), scripts[at].alias)
}

/// Storing a registry and loading what was stored gives the registry back:
/// the same scripts under the same aliases in the same order, and the same
/// display width. Nothing that was stored repeats an alias.
pub proof fn lemma_store_then_load(entries: Seq<ScriptView>, query_width: Option<usize>)
    requires
        distinct_aliases(entries),
    ensures
        loaded_entries(stored_form(entries, query_width).scripts) == entries,
        distinct_aliases(loaded_entries(stored_form(entries, query_width).scripts)),
        stored_form(entries, query_width).query_width == query_width,
{
}

impl StoredScript {
    /// The value that the backing file holds for `script`.
    pub fn of(script: &Script) -> (stored: StoredScript)
        ensures
            stored@ == stored_entry(script@).script,
    {
        let description = match &script.description {
            Some(text) => Some(text.clone()),
            None => None,
        };
        StoredScript {
            query: script.query.clone(),
            sources: clone_optional_strings(&script.sources),
            description,
            references: clone_optional_strings(&script.references),
            tags: clone_optional_strings(&script.tags),
        }
    }
}

impl StoredEntry {
    /// The entry that the backing file holds for `script`.
    pub fn of(script: &Script) -> (entry: StoredEntry)
        ensures
            entry@ == stored_entry(script@),
    {
        StoredEntry { alias: script.alias.clone(), script: StoredScript::of(script) }
    }

    /// The script that this entry stands for: its alias is the key.
    pub fn load(&self) -> (script: Script)
        ensures
            script@ == loaded_script(self@),
    {
        let description = match &self.script.description {
            Some(text) => Some(text.clone()),
            None => None,
        };
        Script {
            alias: self.alias.clone(),
            query: self.script.query.clone(),
            sources: clone_optional_strings(&self.script.sources),
            description,
            references: clone_optional_strings(&self.script.references),
            tags: clone_optional_strings(&self.script.tags),
        }
    }
}

impl Config {
    /// What the backing file is to hold for this registry.
    pub fn to_stored(&self) -> (stored: StoredConfig)
        ensures
            stored@ == stored_form(self.entries(), self.query_width()),
    {
        let mut scripts: Vec<StoredEntry> = Vec::new();
        let mut i: usize = 0;
        while i < self.len()
            invariant
                i <= self.entries().len(),
                scripts@.len() == i,
                forall|j: int|
                    0 <= j < i ==> (#[trigger] scripts@[j])@ == stored_entry(self.entries()[j]),
            decreases self.entries().len() - i,
        {
            scripts.push(StoredEntry::of(self.entry(i)));
            i += 1;
        }
        let stored = StoredConfig { query_width: self.default_query_width(), scripts };
        assert(stored@.scripts =~= stored_form(self.entries(), self.query_width()).scripts);
        stored
    }

    /// The registry that the content of a backing file stands for. Content
    /// in which two entries have the same alias stands for none: the
    /// repeated alias is returned instead.
    pub fn from_stored(stored: &StoredConfig) -> (loaded: Result<Config, String>)
        ensures
            match loaded {
                Ok(config) => {
                    &&& distinct_aliases(loaded_entries(stored@.scripts))
                    &&& config.wf()
                    &&& config.entries() == loaded_entries(stored@.scripts)
                    &&& config.query_width() == stored@.query_width
                },
                Err(alias) => {
                    &&& !distinct_aliases(loaded_entries(stored@.scripts))
                    &&& exists|at: int| is_first_repeat(stored@.scripts, at) && alias@
                        == (#[trigger] stored@.scripts[at]).alias
                },
            },
    {
        let mut config = Config::new();
        config.set_default_query_width(stored.query_width);
        let ghost all = stored@.scripts;
        let mut i: usize = 0;
        while i < stored.scripts.len()
            invariant
                i <= stored.scripts.len(),
                all == stored@.scripts,
                config.wf(),
                config.entries() == loaded_entries(all.take(i as int)),
                config.query_width() == stored.query_width,
            decreases stored.scripts.len() - i,
        {
            let entry = &stored.scripts[i];
            if config.contains_key(entry.alias.as_str()) {
                proof {
                    let earlier = loaded_entries(all.take(i as int));
                    let k = choose|k: int|
                        0 <= k < earlier.len() && (#[trigger] earlier[k]).alias == entry@.alias;
                    assert(loaded_entries(all)[k].alias == loaded_entries(all)[i as int].alias);
                }
                return Err(entry.alias.clone());
            }
            config.insert(entry.load());
            i += 1;
        }
        assert(all.take(all.len() as int) =~= all);
        Ok(config)
    }
}

} // verus!
