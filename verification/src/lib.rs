//! A registry of scripts: queries stored under short aliases, with tags and
//! other metadata, that can be listed, shown, edited, copied, moved and
//! removed by alias.
//!
//! The library neither reads nor writes files, asks the environment, runs
//! an editor nor prints. Whoever calls it hands in what was found on disk,
//! the functions that load, save and edit, and a list to which the lines to
//! print are added.

use vstd::prelude::*;

pub mod cli;
pub mod config;
pub mod defaults;
pub mod error;
pub mod model;
pub mod script;
pub mod store;
pub mod table;
pub mod text;

use crate::config::alias_index;
use crate::config::as_map;
use crate::config::distinct_aliases;
use crate::config::has_alias;
use crate::config::Config;
use crate::defaults::fallback_path;
use crate::defaults::none_exists;
use crate::defaults::resolve_path;
use crate::defaults::resolves_to;
use crate::defaults::PathProbe;
use crate::defaults::FALLBACK_QUERY_DISPLAY_WIDTH;
use crate::error::ErrorView;
use crate::error::PierError;
use crate::error::PierResult;
use crate::model::added_message;
use crate::model::after_add;
use crate::model::after_copy;
use crate::model::after_edit;
use crate::model::after_init;
use crate::model::after_move;
use crate::model::after_remove;
use crate::model::aliases_of;
use crate::model::copied_message;
use crate::model::edited_message;
use crate::model::example_script;
use crate::model::fetched;
use crate::model::is_init_target;
use crate::model::moved_message;
use crate::model::removed_message;
use crate::model::repeated_alias_cause;
use crate::model::rows_of;
use crate::model::selected;
use crate::script::effective_width;
use crate::script::matches_tags;
use crate::script::row_of;
use crate::script::rows_view;
use crate::script::tags_match;
use crate::script::Script;
use crate::script::ScriptRow;
use crate::script::ScriptView;
use crate::store::is_first_repeat;
use crate::store::lemma_store_then_load;
use crate::store::loaded_entries;
use crate::store::stored_form;
use crate::store::LoadFailure;
use crate::store::SaveFailure;
use crate::store::StoredConfig;
use crate::table::listing_table;
use crate::table::table_lines;
use crate::table::table_rows;
use crate::table::table_titles;
use crate::table::title_cells;
use prettytable::Table;
use vstd::string::StringExecFns;

verus! {

/// One text behind another.
fn concat2(first: &str, second: &str) -> (text: String)
    ensures
        text@ == first@ + second@,
{
    let mut text = first.to_owned();
    text.append(second);
    text
}

/// Four texts one behind the other.
fn concat4(first: &str, second: &str, third: &str, fourth: &str) -> (text: String)
    ensures
        text@ == first@ + second@ + third@ + fourth@,
{
    let mut text = first.to_owned();
    text.append(second);
    text.append(third);
    text.append(fourth);
    text
}

/// Adds `line` behind the last line of `out`.
pub(crate) fn emit(out: &mut Vec<String>, line: String)
    ensures
        final(out).deep_view() == old(out).deep_view().push(line@),
{
    out.push(line);
}

/// The text that the editor is opened with: `content`, or nothing where
/// there is none.
pub open spec fn editor_seed(content: Option<&str>) -> Seq<char> {
    match content {
        Some(text) => text@,
        None => Seq::empty(),
    }
}

/// `text` is what editing gives when the editor ended with `outcome`: the
/// text that it returned, as it is, or the error of an editor that
/// failed.
pub open spec fn is_editor_result(
    text: PierResult<String>,
    outcome: Result<String, String>,
) -> bool {
    match outcome {
        Ok(edited) => text == Ok::<String, PierError>(edited),
        Err(cause) => text is Err && text->Err_0@ == (ErrorView::EditorError { cause: cause@ }),
    }
}

/// Opens the editor on `content` and returns the text that it is left
/// with. `editor` is handed the text to start with and lets the user
/// change it.
pub fn open_editor<E>(content: Option<&str>, editor: E) -> (text: PierResult<String>) where
    E: FnOnce(&String) -> Result<String, String>,

    requires
        forall|seed: &String| editor.requires((seed,)),
    ensures
        exists|seed: String, outcome: Result<String, String>|
            seed@ == editor_seed(content) && #[trigger] editor.ensures((&seed,), outcome)
                && is_editor_result(text, outcome),
{
    let seed = match content {
        Some(text) => text.to_owned(),
        None => String::new(),
    };
    let outcome = editor(&seed);
    match outcome {
        Ok(edited) => Ok(edited),
        Err(cause) => Err(PierError::EditorError { cause }),
    }
}

/// Storing a registry and loading what was stored gives the registry
/// back: the same scripts under the same aliases, in the same order, and
/// the same display width. Here `stored` is what is stored for `pier`, and
/// `made` is what loading `stored` gives.
pub proof fn store_then_load(
    pier: Pier,
    stored: StoredConfig,
    made: PierResult<Pier>,
    path: Seq<char>,
    verbose: bool,
)
    requires
        pier.wf(),
        stored@ == stored_form(pier.entries(), pier.query_width()),
        Pier::is_loaded(made, path, verbose, Ok(stored)),
    ensures
        made is Ok,
        made->Ok_0.entries() == pier.entries(),
        made->Ok_0@ == pier@,
        made->Ok_0.query_width() == pier.query_width(),
{
    lemma_store_then_load(pier.entries(), pier.query_width());
}

/// The registry of one backing file, bound to the path of that file.
#[derive(Debug)]
pub struct Pier {
    config: Config,
    path: String,
    verbose: bool,
}

impl View for Pier {
    type V = Map<Seq<char>, ScriptView>;

    /// The registry as a mapping from alias to script.
    open spec fn view(&self) -> Map<Seq<char>, ScriptView> {
        as_map(self.entries())
    }
}

impl Default for Pier {
    /// An empty registry that is bound to the empty path.
    fn default() -> (pier: Pier)
        ensures
            pier.wf(),
            pier.entries() == Seq::<ScriptView>::empty(),
            pier.query_width() is None,
            pier.path() == Seq::<char>::empty(),
            !pier.verbose(),
    {
        Pier::new()
    }
}

impl Pier {
    /// The scripts in registry order.
    pub closed spec fn entries(&self) -> Seq<ScriptView> {
        self.config.entries()
    }

    /// The display width that the registry sets, if it sets one.
    pub closed spec fn query_width(&self) -> Option<usize> {
        self.config.query_width()
    }

    /// The path of the backing file.
    pub closed spec fn path(&self) -> Seq<char> {
        self.path@
    }

    /// Whether verbose output was asked for.
    pub closed spec fn verbose(&self) -> bool {
        self.verbose
    }

    /// The registry is valid: no two scripts share an alias.
    pub open spec fn wf(&self) -> bool {
        distinct_aliases(self.entries())
    }

    /// `self` and `other` are bound to the same path and have the same
    /// settings; their scripts may differ.
    pub open spec fn same_settings(&self, other: &Pier) -> bool {
        &&& self.path() == other.path()
        &&& self.verbose() == other.verbose()
        &&& self.query_width() == other.query_width()
    }

    /// `done`, `after` and `lines_after` are what an operation gives for
    /// the registry `before` and the lines `lines_before` when `outcome`
    /// is what it does to the scripts. Where `outcome` holds the new
    /// scripts, the operation succeeds: the registry holds them, keeps its
    /// path and settings, and `message` is the new last line. Where it
    /// holds an error, that error is returned, and registry and lines stay
    /// as they were.
    pub open spec fn is_changed<T>(
        done: PierResult<T>,
        before: Pier,
        after: Pier,
        outcome: Result<Seq<ScriptView>, ErrorView>,
        lines_before: Seq<Seq<char>>,
        lines_after: Seq<Seq<char>>,
        message: Seq<char>,
    ) -> bool {
        match outcome {
            Ok(entries) => {
                &&& done is Ok
                &&& after.entries() == entries
                &&& after.same_settings(&before)
                &&& lines_after == lines_before.push(message)
            },
            Err(error) => {
                &&& done is Err
                &&& done->Err_0@ == error
                &&& after == before
                &&& lines_after == lines_before
            },
        }
    }

    /// `made` is what loading the file at `path` gives when reading and
    /// parsing it ended with `loaded`. A file that could not be read or
    /// parsed is an error that names `path`. So is content in which two
    /// entries have the same alias. Other content gives a registry bound to
    /// `path`, with each script under the alias that was its key.
    pub open spec fn is_loaded(
        made: PierResult<Pier>,
        path: Seq<char>,
        verbose: bool,
        loaded: Result<StoredConfig, LoadFailure>,
    ) -> bool {
        match loaded {
            Err(LoadFailure::Read { cause }) => made is Err && made->Err_0@
                == (ErrorView::ConfigFileRead { path, cause: cause@ }),
            Err(LoadFailure::Parse { cause }) => made is Err && made->Err_0@
                == (ErrorView::ConfigParse { path, cause: cause@ }),
            Ok(stored) => if distinct_aliases(loaded_entries(stored@.scripts)) {
                &&& made is Ok
                &&& made->Ok_0.wf()
                &&& made->Ok_0.entries() == loaded_entries(stored@.scripts)
                &&& made->Ok_0.query_width() == stored@.query_width
                &&& made->Ok_0.path() == path
                &&& made->Ok_0.verbose() == verbose
            } else {
                &&& made is Err
                &&& exists|at: int|
                    is_first_repeat(stored@.scripts, at) && made->Err_0@
                        == (ErrorView::ConfigParse {
                        path,
                        cause: repeated_alias_cause((#[trigger] stored@.scripts[at]).alias),
                    })
            },
        }
    }

    /// `load` was handed the path that resolution gives for `asked` and
    /// `found` and ended with some outcome, and `made` is what loading
    /// gives for that outcome.
    pub open spec fn is_loaded_by<L: FnOnce(&String) -> Result<StoredConfig, LoadFailure>>(
        load: L,
        asked: Option<Seq<char>>,
        found: Seq<PathProbe>,
        verbose: bool,
        made: PierResult<Pier>,
    ) -> bool {
        exists|path: String, loaded: Result<StoredConfig, LoadFailure>|
            resolves_to(asked, found, path@) && #[trigger] load.ensures((&path,), loaded)
                && Pier::is_loaded(made, path@, verbose, loaded)
    }

    /// `done` is what persisting to `path` gives when putting the content
    /// in place ended with `outcome`.
    pub open spec fn is_written(
        done: PierResult<()>,
        path: Seq<char>,
        outcome: Result<(), SaveFailure>,
    ) -> bool {
        match outcome {
            Ok(_) => done is Ok,
            Err(SaveFailure::CreateDirectory { cause }) => done is Err && done->Err_0@
                == (ErrorView::CreateDirectory { cause: cause@ }),
            Err(SaveFailure::Write { cause }) => done is Err && done->Err_0@
                == (ErrorView::ConfigFileWrite { path, cause: cause@ }),
        }
    }

    /// `save` was handed the path and the stored form of `self`, ended
    /// with some outcome, and `done` is what persisting gives for it.
    pub open spec fn is_saved_by<S: FnOnce(&String, StoredConfig) -> Result<(), SaveFailure>>(
        &self,
        save: S,
        done: PierResult<()>,
    ) -> bool {
        exists|path: String, stored: StoredConfig, outcome: Result<(), SaveFailure>|
            path@ == self.path() && stored@ == stored_form(self.entries(), self.query_width())
                && save.ensures((&path, stored), outcome) && Pier::is_written(
                done,
                self.path(),
                outcome,
            )
    }

    /// `done`, `after` and `lines_after` are what initialisation gives for
    /// the registry `before`, the file `target` and the lines
    /// `lines_before`, before anything is persisted. A file that exists is
    /// never replaced: that is an error, and registry and lines stay as
    /// they were. Else the registry is bound to the path of `target` and
    /// holds the example script, whose confirmation is the new last line;
    /// where the alias of the example was taken, scripts and lines stay.
    pub open spec fn is_prepared<T>(
        done: PierResult<T>,
        before: Pier,
        after: Pier,
        target: PathProbe,
        lines_before: Seq<Seq<char>>,
        lines_after: Seq<Seq<char>>,
    ) -> bool {
        if target.exists {
            &&& done is Err
            &&& done->Err_0@ == (ErrorView::ConfigInitFileAlreadyExists { path: target.path@ })
            &&& after == before
            &&& lines_after == lines_before
        } else {
            &&& done is Ok
            &&& after.path() == target.path@
            &&& after.entries() == after_init(before.entries())
            &&& after.verbose() == before.verbose()
            &&& after.query_width() == before.query_width()
            &&& lines_after == if has_alias(before.entries(), example_script().alias) {
                lines_before
            } else {
                lines_before.push(added_message(example_script().alias))
            }
        }
    }

    /// `edited`, `after` and `lines_after` are what editing the script
    /// `script` of `alias` in the registry `before` gives when the editor
    /// ended with `outcome`. The text that the editor returns becomes the
    /// query as it is; the other fields stay, and a confirmation is the
    /// new last line. A failed editor is an error: registry and lines stay
    /// as they were.
    pub open spec fn is_edited<T>(
        edited: PierResult<T>,
        before: Pier,
        after: Pier,
        alias: Seq<char>,
        script: ScriptView,
        outcome: Result<String, String>,
        lines_before: Seq<Seq<char>>,
        lines_after: Seq<Seq<char>>,
    ) -> bool {
        match outcome {
            Ok(text) => {
                &&& edited is Ok
                &&& after.entries() == before.entries().update(
                    alias_index(before.entries(), alias),
                    script.with_query(text@),
                )
                &&& after@ == before@.insert(alias, script.with_query(text@))
                &&& after.same_settings(&before)
                &&& lines_after == lines_before.push(edited_message(alias))
            },
            Err(cause) => {
                &&& edited is Err
                &&& edited->Err_0@ == (ErrorView::EditorError { cause: cause@ })
                &&& after == before
                &&& lines_after == lines_before
            },
        }
    }

    /// An empty registry that is bound to the empty path.
    pub fn new() -> (pier: Pier)
        ensures
            pier.wf(),
            pier.entries() == Seq::<ScriptView>::empty(),
            pier.query_width() is None,
            pier.path() == Seq::<char>::empty(),
            !pier.verbose(),
    {
        Pier { config: Config::new(), path: String::new(), verbose: false }
    }

    /// The number of scripts.
    pub fn len(&self) -> (count: usize)
        ensures
            count == self.entries().len(),
    {
        self.config.len()
    }

    /// The path of the backing file.
    pub fn config_path(&self) -> (path: &String)
        ensures
            path@ == self.path(),
    {
        &self.path
    }

    /// Whether verbose output was asked for.
    pub fn is_verbose(&self) -> (verbose: bool)
        ensures
            verbose == self.verbose(),
    {
        self.verbose
    }

    /// The registry of the file at `path`, from the outcome `loaded` of
    /// reading and parsing that file.
    pub fn from_loaded(
        path: String,
        verbose: bool,
        loaded: Result<StoredConfig, LoadFailure>,
    ) -> (made: PierResult<Pier>)
        ensures
            Pier::is_loaded(made, path@, verbose, loaded),
    {
        match loaded {
            Err(LoadFailure::Read { cause }) => Err(PierError::ConfigFileRead { path, cause }),
            Err(LoadFailure::Parse { cause }) => Err(PierError::ConfigParse { path, cause }),
            Ok(stored) => match Config::from_stored(&stored) {
                Ok(config) => Ok(Pier { config, path, verbose }),
                Err(alias) => {
                    let cause = concat2(
                        "more than one script is stored under the alias ",
                        alias.as_str(),
                    );
                    Err(PierError::ConfigParse { path, cause })
                },
            },
        }
    }

    /// Creates the registry of the file at `path`. `load` is handed `path`
    /// and reads and parses the file there.
    pub fn from_file<L>(path: String, verbose: bool, load: L) -> (made: PierResult<Pier>) where
        L: FnOnce(&String) -> Result<StoredConfig, LoadFailure>,

        requires
            load.requires((&path,)),
        ensures
            exists|loaded: Result<StoredConfig, LoadFailure>|
                load.ensures((&path,), loaded) && Pier::is_loaded(made, path@, verbose, loaded),
    {
        let loaded = load(&path);
        Pier::from_loaded(path, verbose, loaded)
    }

    /// Creates the registry of the file at `input_path` or, where no path
    /// is given, of the first fallback probe of `found` that exists. `load`
    /// is handed the path that was chosen and reads and parses the file
    /// there. Without a path and without a fallback file nothing is
    /// loaded.
    pub fn from<L>(
        input_path: Option<String>,
        found: &Vec<PathProbe>,
        verbose: bool,
        load: L,
    ) -> (made: PierResult<Pier>) where L: FnOnce(&String) -> Result<StoredConfig, LoadFailure>
        requires
            forall|path: &String|
                resolves_to(input_path.deep_view(), found@, path@) ==> load.requires((path,)),
        ensures
            input_path is None && none_exists(found@) ==> made is Err && made->Err_0@
                == ErrorView::NoConfigFile,
            !(input_path is None && none_exists(found@)) ==> Pier::is_loaded_by(
                load,
                input_path.deep_view(),
                found@,
                verbose,
                made,
            ),
    {
        let path = match resolve_path(input_path, found) {
            Ok(path) => path,
            Err(error) => {
                return Err(error);
            },
        };
        let loaded = load(&path);
        Pier::from_loaded(path, verbose, loaded)
    }

    /// What the backing file is to hold for this registry.
    pub fn to_stored(&self) -> (stored: StoredConfig)
        ensures
            stored@ == stored_form(self.entries(), self.query_width()),
    {
        self.config.to_stored()
    }

    /// The result of persisting this registry when putting its content in
    /// place ended with `outcome`.
    pub fn written(&self, outcome: Result<(), SaveFailure>) -> (done: PierResult<()>)
        ensures
            Pier::is_written(done, self.path(), outcome),
    {
        match outcome {
            Ok(_) => Ok(()),
            Err(SaveFailure::CreateDirectory { cause }) => Err(
                PierError::CreateDirectory { cause },
            ),
            Err(SaveFailure::Write { cause }) => Err(
                PierError::ConfigFileWrite { path: self.path.clone(), cause },
            ),
        }
    }

    /// Persists the registry to its path. `save` is handed the path and
    /// what the file is to hold, and puts that content in place.
    pub fn write<S>(&self, save: S) -> (done: PierResult<()>) where
        S: FnOnce(&String, StoredConfig) -> Result<(), SaveFailure>,

        requires
            forall|path: &String, stored: StoredConfig|
                path@ == self.path() && stored@ == stored_form(self.entries(), self.query_width())
                    ==> save.requires((path, stored)),
        ensures
            self.is_saved_by(save, done),
    {
        let outcome = save(&self.path, self.config.to_stored());
        self.written(outcome)
    }

    /// Binds the registry to the file that initialisation is to create and
    /// adds the example script. Nothing is persisted. The confirmation of
    /// the added script is added to `out`.
    pub fn prepare_init(
        &mut self,
        new_path: Option<PathProbe>,
        found: &Vec<PathProbe>,
        default_path: PathProbe,
        out: &mut Vec<String>,
    ) -> (done: PierResult<()>)
        requires
            old(self).wf(),
        ensures
            final(self).wf(),
            exists|target: PathProbe|
                is_init_target(new_path, found@, default_path, target) && Pier::is_prepared(
                    done,
                    *old(self),
                    *final(self),
                    target,
                    old(out).deep_view(),
                    final(out).deep_view(),
                ),
    {
        let target = match new_path {
            Some(given) => given,
            None => match fallback_path(found) {
                Ok(path) => PathProbe { path, exists: true },
                Err(_) => default_path,
            },
        };
        assert(is_init_target(new_path, found@, default_path, target));
        if target.exists {
            return Err(PierError::ConfigInitFileAlreadyExists { path: target.path });
        }
        self.path = target.path;
        let example = Script {
            alias: "hello-pier".to_owned(),
            query: "select * from querylake".to_owned(),
            sources: None,
            description: Some("This is an example query.".to_owned()),
            references: None,
            tags: None,
        };
        let _ = self.add_script(example, false, out);
        Ok(())
    }

    /// Creates a new backing file: binds the registry to the file that is
    /// to be created, adds the example script and persists. `save` is
    /// handed the path and what the file is to hold; it creates the
    /// directory of the file where that is missing, and puts the content
    /// in place.
    pub fn config_init<S>(
        &mut self,
        new_path: Option<PathProbe>,
        found: &Vec<PathProbe>,
        default_path: PathProbe,
        save: S,
        out: &mut Vec<String>,
    ) -> (done: PierResult<()>) where S: FnOnce(&String, StoredConfig) -> Result<(), SaveFailure>
        requires
            old(self).wf(),
            forall|path: &String, stored: StoredConfig| save.requires((path, stored)),
        ensures
            final(self).wf(),
            exists|target: PathProbe|
                {
                    &&& #[trigger] is_init_target(new_path, found@, default_path, target)
                    &&& Pier::is_prepared(
                        if target.exists {
                            done
                        } else {
                            Ok(())
                        },
                        *old(self),
                        *final(self),
                        target,
                        old(out).deep_view(),
                        final(out).deep_view(),
                    )
                    &&& !target.exists ==> final(self).is_saved_by(save, done)
                },
    {
        match self.prepare_init(new_path, found, default_path, out) {
            Ok(_) => self.write(save),
            Err(error) => Err(error),
        }
    }

    /// Fetches the script stored under `alias`.
    pub fn fetch_script(&self, alias: &str) -> (found: PierResult<&Script>)
        requires
            self.wf(),
        ensures
            match fetched(self.entries(), alias@) {
                Ok(script) => found is Ok && found->Ok_0@ == script,
                Err(error) => found is Err && found->Err_0@ == error,
            },
            found is Ok <==> self@.contains_key(alias@),
            found is Ok ==> found->Ok_0@ == self@[alias@],
    {
        if self.config.is_empty() {
            return Err(PierError::NoScriptsExists);
        }
        match self.config.get(alias) {
            Some(script) => Ok(script),
            None => Err(PierError::AliasNotFound { alias: alias.to_owned() }),
        }
    }

    /// Replaces the query of the script stored under `alias` by `query`
    /// and leaves its other fields as they are.
    pub fn set_query(&mut self, alias: &str, query: String) -> (edited: PierResult<&Script>)
        requires
            old(self).wf(),
        ensures
            final(self).wf(),
            match after_edit(old(self).entries(), alias@, query@) {
                Ok(entries) => {
                    &&& edited is Ok
                    &&& edited->Ok_0@ == old(self)@[alias@].with_query(query@)
                    &&& final(self).entries() == entries
                    &&& final(self).same_settings(old(self))
                },
                Err(error) => {
                    &&& edited is Err
                    &&& edited->Err_0@ == error
                    &&& *final(self) == *old(self)
                },
            },
            edited is Ok <==> old(self)@.contains_key(alias@),
            edited is Ok ==> final(self)@ == old(self)@.insert(
                alias@,
                old(self)@[alias@].with_query(query@),
            ),
    {
        if self.config.is_empty() {
            return Err(PierError::NoScriptsExists);
        }
        if !self.config.contains_key(alias) {
            return Err(PierError::AliasNotFound { alias: alias.to_owned() });
        }
        self.config.set_query(alias, query);
        match self.config.get(alias) {
            Some(script) => Ok(script),
            None => Err(PierError::AliasNotFound { alias: alias.to_owned() }),
        }
    }

    /// Edits the query of the script stored under `alias`. `editor` is
    /// handed the present query and returns the new one. A confirmation is
    /// added to `out`.
    pub fn edit_script<E>(&mut self, alias: &str, editor: E, out: &mut Vec<String>) -> (edited:
        PierResult<&Script>) where E: FnOnce(&String) -> Result<String, String>
        requires
            old(self).wf(),
            forall|seed: &String| editor.requires((seed,)),
        ensures
            final(self).wf(),
            match fetched(old(self).entries(), alias@) {
                Err(error) => edited is Err && edited->Err_0@ == error && *final(self) == *old(self)
                    && final(out).deep_view() == old(out).deep_view(),
                Ok(script) => exists|seed: String, outcome: Result<String, String>|
                    seed@ == script.query && editor.ensures((&seed,), outcome) && Pier::is_edited(
                        edited,
                        *old(self),
                        *final(self),
                        alias@,
                        script,
                        outcome,
                        old(out).deep_view(),
                        final(out).deep_view(),
                    ),
            },
            edited is Ok ==> final(self)@.contains_key(alias@) && edited->Ok_0@ == final(self)@[
                alias@
            ],
    {
        let text = match self.fetch_script(alias) {
            Ok(script) => open_editor(Some(script.query.as_str()), editor),
            Err(error) => {
                return Err(error);
            },
        };
        match text {
            Ok(text) => {
                emit(out, concat2("Edited ", alias));
                self.set_query(alias, text)
            },
            Err(error) => Err(error),
        }
    }

    /// Removes the script stored under `alias`. The other scripts stay as
    /// they are. A confirmation is added to `out`.
    pub fn remove_script(&mut self, alias: &str, out: &mut Vec<String>) -> (done: PierResult<()>)
        requires
            old(self).wf(),
        ensures
            final(self).wf(),
            Pier::is_changed(
                done,
                *old(self),
                *final(self),
                after_remove(old(self).entries(), alias@),
                old(out).deep_view(),
                final(out).deep_view(),
                removed_message(alias@),
            ),
            done is Ok <==> old(self)@.contains_key(alias@),
            done is Ok ==> final(self)@ == old(self)@.remove(alias@),
    {
        if self.config.is_empty() {
            return Err(PierError::NoScriptsExists);
        }
        if !self.config.contains_key(alias) {
            return Err(PierError::AliasNotFound { alias: alias.to_owned() });
        }
        self.config.remove(alias);
        emit(out, concat2("Removed ", alias));
        Ok(())
    }

    /// Adds `script` under its alias. Without `force` an alias that is
    /// taken is refused; with it the script replaces the one stored there.
    /// A confirmation is added to `out`.
    pub fn add_script(&mut self, script: Script, force: bool, out: &mut Vec<String>) -> (done:
        PierResult<()>)
        requires
            old(self).wf(),
        ensures
            final(self).wf(),
            Pier::is_changed(
                done,
                *old(self),
                *final(self),
                after_add(old(self).entries(), script@, force),
                old(out).deep_view(),
                final(out).deep_view(),
                added_message(script@.alias),
            ),
            done is Ok <==> force || !old(self)@.contains_key(script@.alias),
            done is Ok ==> final(self)@ == old(self)@.insert(script@.alias, script@),
            done is Ok ==> final(self)@.contains_key(script@.alias) && final(self)@[script@.alias]
                == script@,
    {
        if !force && self.config.contains_key(script.alias.as_str()) {
            return Err(PierError::AliasAlreadyExists { alias: script.alias });
        }
        emit(out, concat2("Added ", script.alias.as_str()));
        self.config.insert(script);
        Ok(())
    }

    /// Copies the script stored under `from_alias` to `new_alias`. The
    /// copy is never put in the place of another script. A confirmation is
    /// added to `out`.
    pub fn copy_script(
        &mut self,
        from_alias: &str,
        new_alias: &str,
        out: &mut Vec<String>,
    ) -> (done: PierResult<()>)
        requires
            old(self).wf(),
        ensures
            final(self).wf(),
            Pier::is_changed(
                done,
                *old(self),
                *final(self),
                after_copy(old(self).entries(), from_alias@, new_alias@),
                old(out).deep_view(),
                final(out).deep_view(),
                copied_message(from_alias@, new_alias@),
            ),
            done is Ok <==> old(self)@.contains_key(from_alias@) && !old(self)@.contains_key(
                new_alias@,
            ),
            done is Ok ==> final(self)@ == old(self)@.insert(
                new_alias@,
                old(self)@[from_alias@].renamed(new_alias@),
            ),
            done is Ok ==> final(self)@.contains_key(from_alias@) && final(self)@[from_alias@]
                == old(self)@[from_alias@],
            done is Ok ==> final(self)@.contains_key(new_alias@) && final(self)@[new_alias@]
                == old(self)@[from_alias@].renamed(new_alias@),
    {
        if self.config.contains_key(new_alias) {
            return Err(PierError::AliasAlreadyExists { alias: new_alias.to_owned() });
        }
        let copy = match self.config.get(from_alias) {
            Some(script) => script.renamed(new_alias.to_owned()),
            None => {
                return Err(PierError::AliasNotFound { alias: from_alias.to_owned() });
            },
        };
        emit(out, concat4("Copy from alias ", from_alias, " to new alias ", new_alias));
        self.config.insert(copy);
        Ok(())
    }

    /// Moves the script stored under `from_alias` to `new_alias`. Without
    /// `force` a destination that is taken is refused; with it the script
    /// replaces the one stored there. A confirmation is added to `out`.
    pub fn move_script(
        &mut self,
        from_alias: &str,
        new_alias: &str,
        force: bool,
        out: &mut Vec<String>,
    ) -> (done: PierResult<()>)
        requires
            old(self).wf(),
        ensures
            final(self).wf(),
            Pier::is_changed(
                done,
                *old(self),
                *final(self),
                after_move(old(self).entries(), from_alias@, new_alias@, force),
                old(out).deep_view(),
                final(out).deep_view(),
                moved_message(from_alias@, new_alias@),
            ),
            done is Ok <==> old(self)@.contains_key(from_alias@) && (force
                || !old(self)@.contains_key(new_alias@)),
            done is Ok ==> final(self)@ == old(self)@.remove(from_alias@).insert(
                new_alias@,
                old(self)@[from_alias@].renamed(new_alias@),
            ),
            done is Ok ==> final(self)@.contains_key(new_alias@) && final(self)@[new_alias@]
                == old(self)@[from_alias@].renamed(new_alias@),
            done is Ok && from_alias@ != new_alias@ ==> !final(self)@.contains_key(from_alias@),
    {
        if !self.config.contains_key(from_alias) {
            return Err(PierError::AliasNotFound { alias: from_alias.to_owned() });
        }
        if !force && self.config.contains_key(new_alias) {
            return Err(PierError::AliasAlreadyExists { alias: new_alias.to_owned() });
        }
        match self.config.remove(from_alias) {
            Some(mut script) => {
                emit(out, concat4("Move from alias ", from_alias, " to new alias ", new_alias));
                script.alias = new_alias.to_owned();
                self.config.insert(script);
                Ok(())
            },
            None => Err(PierError::AliasNotFound { alias: from_alias.to_owned() }),
        }
    }

    /// Adds to `out` the aliases of the scripts that pass the tag filter,
    /// one line each, in registry order. Without a filter these are the
    /// aliases of all scripts.
    pub fn list_aliases(&self, tags: Option<Vec<String>>, out: &mut Vec<String>) -> (done:
        PierResult<()>)
        ensures
            match done {
                Ok(_) => self.entries().len() > 0 && final(out).deep_view() == old(out).deep_view()
                    + aliases_of(selected(self.entries(), tags.deep_view())),
                Err(error) => self.entries().len() == 0 && error@ == ErrorView::NoScriptsExists
                    && final(out).deep_view() == old(out).deep_view(),
            },
    {
        if self.config.is_empty() {
            return Err(PierError::NoScriptsExists);
        }
        let ghost entries = self.entries();
        let ghost filter = tags.deep_view();
        let ghost before = out.deep_view();
        let mut i: usize = 0;
        while i < self.config.len()
            invariant
                i <= entries.len(),
                entries == self.entries(),
                filter == tags.deep_view(),
                out.deep_view() == before + aliases_of(selected(entries.take(i as int), filter)),
            decreases entries.len() - i,
        {
            let script = self.config.entry(i);
            proof {
                assert(entries.take(i + 1) =~= entries.take(i as int).push(entries[i as int]));
                entries.take(i as int).lemma_filter_push(
                    entries[i as int],
                    |entry: ScriptView| tags_match(entry.tags, filter),
                );
            }
            if matches_tags(&script.tags, &tags) {
                emit(out, script.alias.clone());
            }
            i += 1;
        }
        assert(entries.take(entries.len() as int) =~= entries);
        Ok(())
    }

    /// The listing rows of the scripts that pass the tag filter, in
    /// registry order. Without a filter these are the rows of all scripts.
    /// Queries are shown in full when `query_full` is set, else cut to the
    /// width in force: `query_width`, else the width that the registry
    /// sets, else [`FALLBACK_QUERY_DISPLAY_WIDTH`].
    pub fn script_rows(
        &self,
        tags: Option<Vec<String>>,
        query_full: bool,
        query_width: Option<usize>,
    ) -> (listed: PierResult<Vec<ScriptRow>>)
        ensures
            match listed {
                Ok(rows) => self.entries().len() > 0 && rows_view(rows@) == rows_of(
                    selected(self.entries(), tags.deep_view()),
                    query_full,
                    effective_width(
                        query_width,
                        self.query_width(),
                        FALLBACK_QUERY_DISPLAY_WIDTH,
                    ) as int,
                ),
                Err(error) => self.entries().len() == 0 && error@ == ErrorView::NoScriptsExists,
            },
    {
        let width = match query_width {
            Some(width) => width,
            None => match self.config.default_query_width() {
                Some(width) => width,
                None => FALLBACK_QUERY_DISPLAY_WIDTH,
            },
        };
        if self.config.is_empty() {
            return Err(PierError::NoScriptsExists);
        }
        let ghost entries = self.entries();
        let ghost filter = tags.deep_view();
        let mut rows: Vec<ScriptRow> = Vec::new();
        let mut i: usize = 0;
        while i < self.config.len()
            invariant
                i <= entries.len(),
                entries == self.entries(),
                filter == tags.deep_view(),
                rows_view(rows@) == rows_of(
                    selected(entries.take(i as int), filter),
                    query_full,
                    width as int,
                ),
            decreases entries.len() - i,
        {
            let script = self.config.entry(i);
            let ghost chosen = selected(entries.take(i as int), filter);
            proof {
                assert(entries.take(i + 1) =~= entries.take(i as int).push(entries[i as int]));
                entries.take(i as int).lemma_filter_push(
                    entries[i as int],
                    |entry: ScriptView| tags_match(entry.tags, filter),
                );
            }
            if matches_tags(&script.tags, &tags) {
                rows.push(script.row(query_full, width));
                assert(rows_of(chosen.push(entries[i as int]), query_full, width as int)
                    =~= rows_of(chosen, query_full, width as int).push(
                    row_of(entries[i as int], query_full, width as int),
                ));
            }
            i += 1;
        }
        assert(entries.take(entries.len() as int) =~= entries);
        Ok(rows)
    }

    /// The table that lists the scripts that pass the tag filter: a title
    /// row, and below it the rows that [`Pier::script_rows`] gives, in
    /// their order. A cell shows its text with the escape characters left
    /// out.
    pub fn list_scripts(
        &self,
        tags: Option<Vec<String>>,
        query_full: bool,
        query_width: Option<usize>,
    ) -> (listed: PierResult<Table>)
        ensures
            match listed {
                Ok(table) => self.entries().len() > 0 && table_titles(table) == Some(
                    title_cells(),
                ) && table_rows(table) == table_lines(
                    rows_of(
                        selected(self.entries(), tags.deep_view()),
                        query_full,
                        effective_width(
                            query_width,
                            self.query_width(),
                            FALLBACK_QUERY_DISPLAY_WIDTH,
                        ) as int,
                    ),
                ),
                Err(error) => self.entries().len() == 0 && error@ == ErrorView::NoScriptsExists,
            },
    {
        match self.script_rows(tags, query_full, query_width) {
            Ok(rows) => Ok(listing_table(&rows)),
            Err(error) => Err(error),
        }
    }
}

} // verus!
