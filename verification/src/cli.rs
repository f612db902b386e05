//! The commands of the command line, and what each of them does to the
//! registry.

use crate::defaults::FALLBACK_QUERY_DISPLAY_WIDTH;
use crate::defaults::none_exists;
use crate::defaults::PathProbe;
use crate::emit;
use crate::error::ErrorView;
use crate::error::PierResult;
use crate::model::added_message;
use crate::model::after_add;
use crate::model::after_copy;
use crate::model::after_move;
use crate::model::after_remove;
use crate::model::aliases_of;
use crate::model::copied_message;
use crate::model::fetched;
use crate::model::is_init_target;
use crate::model::moved_message;
use crate::model::removed_message;
use crate::model::rows_of;
use crate::model::selected;
use crate::open_editor;
use crate::Pier;
use crate::script::effective_width;
use crate::script::Script;
use crate::script::ScriptView;
use crate::store::LoadFailure;
use crate::store::StoredConfig;
use crate::table::table_lines;
use crate::table::table_rows;
use crate::table::table_titles;
use crate::table::title_cells;
use prettytable::Table;
use vstd::prelude::*;

verus! {

/// A command.
#[derive(Debug, PartialEq, Eq)]
pub enum CliSubcommand {
    /// Add a new script. Without a query the editor is asked for one.
    Add {
        query: Option<String>,
        alias: String,
        sources: Option<Vec<String>>,
        description: Option<String>,
        references: Option<Vec<String>>,
        tags: Option<Vec<String>>,
        force: bool,
    },
    /// Remove the script of an alias.
    Remove { alias: String },
    /// Create a backing file.
    ConfigInit,
    /// Edit the query of the script of an alias.
    Edit { alias: String },
    /// Show the query of the script of an alias.
    Show { alias: String },
    /// List scripts: their aliases only, or a table of them.
    List {
        list_aliases: bool,
        query_full: bool,
        query_width: Option<usize>,
        tags: Option<Vec<String>>,
    },
    /// Copy the script of an alias to a new alias.
    Copy { from_alias: String, to_alias: String },
    /// Move the script of an alias to another alias.
    Move { from_alias: String, to_alias: String, force: bool },
}

/// The options that hold for every command.
#[derive(Debug, PartialEq, Eq)]
pub struct CliOpts {
    /// Whether verbose output is asked for.
    pub verbose: bool,
    /// The path of the backing file, where one is given.
    pub path: Option<String>,
}

/// A command line.
#[derive(Debug, PartialEq, Eq)]
pub struct Cli {
    pub opts: CliOpts,
    /// The alias of a script to run, where no command is given.
    pub alias: Option<String>,
    /// The arguments for that script.
    pub args: Vec<String>,
    pub cmd: Option<CliSubcommand>,
}

/// What the caller found on disk before the command runs.
#[derive(Debug, PartialEq, Eq)]
pub struct Surroundings {
    /// Whether a file exists at the path that the command line gives.
    pub given_exists: bool,
    /// The probes of the fallback locations, in their order.
    pub found: Vec<PathProbe>,
    /// The probe of the file that initialisation creates by default.
    pub default_init: PathProbe,
}

/// Whether the registry is persisted after `cmd` succeeded: that is so for
/// the commands that change it.
pub open spec fn persists(cmd: CliSubcommand) -> bool {
    match cmd {
        CliSubcommand::Add { .. } => true,
        CliSubcommand::Remove { .. } => true,
        CliSubcommand::Edit { .. } => true,
        CliSubcommand::Copy { .. } => true,
        CliSubcommand::Move { .. } => true,
        CliSubcommand::ConfigInit => true,
        CliSubcommand::Show { .. } => false,
        CliSubcommand::List { .. } => false,
    }
}

/// The script that the command `Add` with these fields adds when its query
/// is `query`.
pub open spec fn added_script(cmd: CliSubcommand, query: Seq<char>) -> ScriptView
    recommends
        cmd is Add,
{
    ScriptView {
        alias: cmd->Add_alias@,
        query,
        sources: cmd->Add_sources.deep_view(),
        description: cmd->Add_description.deep_view(),
        references: cmd->Add_references.deep_view(),
        tags: cmd->Add_tags.deep_view(),
    }
}

/// `step`, `after` and `lines_after` are what the command `cmd` gives for
/// the loaded registry `before` and the lines `lines_before`. It says for
/// each command which operation of the registry it is, what it adds to the
/// lines, and whether it answers with a table.
pub open spec fn is_run<E: FnOnce(&String) -> Result<String, String>>(
    cmd: CliSubcommand,
    before: Pier,
    after: Pier,
    editor: E,
    step: PierResult<Option<Table>>,
    lines_before: Seq<Seq<char>>,
    lines_after: Seq<Seq<char>>,
) -> bool {
    &&& step is Ok && !(cmd is List) ==> step->Ok_0 is None
    &&& match cmd {
        CliSubcommand::Add { query: Some(text), alias, force, .. } => Pier::is_changed(
            step,
            before,
            after,
            after_add(before.entries(), added_script(cmd, text@), force),
            lines_before,
            lines_after,
            added_message(alias@),
        ),
        CliSubcommand::Add { query: None, alias, force, .. } => exists|
            seed: String,
            outcome: Result<String, String>,
        |
            seed@ == Seq::<char>::empty() && editor.ensures((&seed,), outcome) && match outcome {
                Ok(text) => Pier::is_changed(
                    step,
                    before,
                    after,
                    after_add(before.entries(), added_script(cmd, text@), force),
                    lines_before,
                    lines_after,
                    added_message(alias@),
                ),
                Err(cause) => {
                    &&& step is Err
                    &&& step->Err_0@ == (ErrorView::EditorError { cause: cause@ })
                    &&& after == before
                    &&& lines_after == lines_before
                },
            },
        CliSubcommand::Remove { alias } => Pier::is_changed(
            step,
            before,
            after,
            after_remove(before.entries(), alias@),
            lines_before,
            lines_after,
            removed_message(alias@),
        ),
        CliSubcommand::Copy { from_alias, to_alias } => Pier::is_changed(
            step,
            before,
            after,
            after_copy(before.entries(), from_alias@, to_alias@),
            lines_before,
            lines_after,
            copied_message(from_alias@, to_alias@),
        ),
        CliSubcommand::Move { from_alias, to_alias, force } => Pier::is_changed(
            step,
            before,
            after,
            after_move(before.entries(), from_alias@, to_alias@, force),
            lines_before,
            lines_after,
            moved_message(from_alias@, to_alias@),
        ),
        CliSubcommand::Edit { alias } => match fetched(before.entries(), alias@) {
            Err(error) => {
                &&& step is Err
                &&& step->Err_0@ == error
                &&& after == before
                &&& lines_after == lines_before
            },
            Ok(script) => exists|seed: String, outcome: Result<String, String>|
                seed@ == script.query && editor.ensures((&seed,), outcome) && Pier::is_edited(
                    step,
                    before,
                    after,
                    alias@,
                    script,
                    outcome,
                    lines_before,
                    lines_after,
                ),
        },
        CliSubcommand::Show { alias } => {
            &&& after == before
            &&& match fetched(before.entries(), alias@) {
                Err(error) => step is Err && step->Err_0@ == error && lines_after == lines_before,
                Ok(script) => step is Ok && lines_after == lines_before.push(script.query),
            }
        },
        CliSubcommand::List { list_aliases, query_full, query_width, tags } => {
            &&& after == before
            &&& if before.entries().len() == 0 {
                &&& step is Err
                &&& step->Err_0@ == ErrorView::NoScriptsExists
                &&& lines_after == lines_before
            } else if list_aliases {
                &&& step is Ok
                &&& step->Ok_0 is None
                &&& lines_after == lines_before + aliases_of(
                    selected(before.entries(), tags.deep_view()),
                )
            } else {
                &&& step is Ok
                &&& step->Ok_0 is Some
                &&& table_titles(step->Ok_0->0) == Some(title_cells())
                &&& table_rows(step->Ok_0->0) == table_lines(
                    rows_of(
                        selected(before.entries(), tags.deep_view()),
                        query_full,
                        effective_width(
                            query_width,
                            before.query_width(),
                            FALLBACK_QUERY_DISPLAY_WIDTH,
                        ) as int,
                    ),
                )
                &&& lines_after == lines_before
            }
        },
        CliSubcommand::ConfigInit => false,
    }
}

/// What handling a command line gives: the table to print, if the command
/// answers with one, and the registry to persist, if the command changed
/// it.
#[derive(Debug)]
pub struct Handled {
    pub table: Option<Table>,
    pub persist: Option<Pier>,
}

/// The probe that initialisation is given for the path of the command
/// line.
pub open spec fn given_probe(cli: Cli, around: Surroundings) -> Option<PathProbe> {
    match cli.opts.path {
        Some(path) => Some(PathProbe { path, exists: around.given_exists }),
        None => None,
    }
}

/// `done` and `lines_after` are what the command `cmd` gives for the
/// loaded registry `before`: the command runs, and its error is returned.
/// Where it succeeded, its table is handed on, and the registry as the
/// command left it is to be persisted if the command is one that changes
/// the registry.
pub open spec fn is_run_on<E: FnOnce(&String) -> Result<String, String>>(
    cmd: CliSubcommand,
    before: Pier,
    editor: E,
    done: PierResult<Handled>,
    lines_before: Seq<Seq<char>>,
    lines_after: Seq<Seq<char>>,
) -> bool {
    exists|after: Pier, step: PierResult<Option<Table>>| #[trigger]
        is_run(cmd, before, after, editor, step, lines_before, lines_after) && after.wf()
            && match step {
            Err(error) => done is Err && done->Err_0@ == error@,
            Ok(answer) => {
                &&& done is Ok
                &&& done->Ok_0.table == answer
                &&& done->Ok_0.persist == if persists(cmd) {
                    Some(after)
                } else {
                    None
                }
            },
        }
}

/// `done` and `lines_after` are what initialisation gives in the
/// surroundings `around`: an empty registry is prepared for the file that
/// is to be created and, unless that file exists, is to be persisted.
pub open spec fn is_initialised(
    cli: Cli,
    around: Surroundings,
    done: PierResult<Handled>,
    lines_before: Seq<Seq<char>>,
    lines_after: Seq<Seq<char>>,
) -> bool {
    exists|before: Pier, after: Pier, target: PathProbe|
        {
            &&& before.entries() == Seq::<ScriptView>::empty()
            &&& before.query_width() is None
            &&& !before.verbose()
            &&& is_init_target(given_probe(cli, around), around.found@, around.default_init, target)
            &&& #[trigger] Pier::is_prepared(done, before, after, target, lines_before, lines_after)
            &&& after.wf()
            &&& done is Ok ==> done->Ok_0.table is None && done->Ok_0.persist == Some(after)
        }
}

/// `done` and `lines_after` are what the command line `cli` gives in the
/// surroundings `around` for the lines `lines_before`.
///
/// Without a command nothing happens. Initialisation starts from an empty
/// registry. Every other command first loads the registry of the path
/// that resolution gives, and fails where that fails; then it runs on
/// that registry.
pub open spec fn is_handled<L, E>(
    cli: Cli,
    around: Surroundings,
    load: L,
    editor: E,
    done: PierResult<Handled>,
    lines_before: Seq<Seq<char>>,
    lines_after: Seq<Seq<char>>,
) -> bool where
    L: FnOnce(&String) -> Result<StoredConfig, LoadFailure>,
    E: FnOnce(&String) -> Result<String, String>,
 {
    match cli.cmd {
        None => {
            &&& done is Ok
            &&& done->Ok_0.table is None
            &&& done->Ok_0.persist is None
            &&& lines_after == lines_before
        },
        Some(CliSubcommand::ConfigInit) => is_initialised(
            cli,
            around,
            done,
            lines_before,
            lines_after,
        ),
        Some(cmd) => if cli.opts.path is None && none_exists(around.found@) {
            done is Err && done->Err_0@ == ErrorView::NoConfigFile && lines_after == lines_before
        } else {
            exists|made: PierResult<Pier>| #[trigger]
                Pier::is_loaded_by(
                    load,
                    cli.opts.path.deep_view(),
                    around.found@,
                    cli.opts.verbose,
                    made,
                ) && match made {
                    Err(error) => done is Err && done->Err_0@ == error@ && lines_after
                        == lines_before,
                    Ok(before) => is_run_on(cmd, before, editor, done, lines_before, lines_after),
                }
        },
    }
}

/// Runs a command on a loaded registry.
fn run<E>(pier: &mut Pier, cmd: CliSubcommand, editor: E, out: &mut Vec<String>) -> (step:
    PierResult<Option<Table>>) where E: FnOnce(&String) -> Result<String, String>
    requires
        old(pier).wf(),
        !(cmd is ConfigInit),
        forall|seed: &String| editor.requires((seed,)),
    ensures
        final(pier).wf(),
        is_run(
            cmd,
            *old(pier),
            *final(pier),
            editor,
            step,
            old(out).deep_view(),
            final(out).deep_view(),
        ),
{
    match cmd {
        CliSubcommand::Add { query, alias, sources, description, references, tags, force } => {
            let query = match query {
                Some(text) => text,
                None => match open_editor(None, editor) {
                    Ok(text) => text,
                    Err(error) => {
                        return Err(error);
                    },
                },
            };
            let script = Script { alias, query, sources, description, references, tags };
            match pier.add_script(script, force, out) {
                Ok(_) => Ok(None),
                Err(error) => Err(error),
            }
        },
        CliSubcommand::Remove { alias } => match pier.remove_script(alias.as_str(), out) {
            Ok(_) => Ok(None),
            Err(error) => Err(error),
        },
        CliSubcommand::Copy { from_alias, to_alias } => match pier.copy_script(
            from_alias.as_str(),
            to_alias.as_str(),
            out,
        ) {
            Ok(_) => Ok(None),
            Err(error) => Err(error),
        },
        CliSubcommand::Move { from_alias, to_alias, force } => match pier.move_script(
            from_alias.as_str(),
            to_alias.as_str(),
            force,
            out,
        ) {
            Ok(_) => Ok(None),
            Err(error) => Err(error),
        },
        CliSubcommand::Edit { alias } => match pier.edit_script(alias.as_str(), editor, out) {
            Ok(_) => Ok(None),
            Err(error) => Err(error),
        },
        CliSubcommand::Show { alias } => match pier.fetch_script(alias.as_str()) {
            Ok(script) => {
                emit(out, script.query.clone());
                Ok(None)
            },
            Err(error) => Err(error),
        },
        CliSubcommand::List { list_aliases, query_full, query_width, tags } => {
            if list_aliases {
                match pier.list_aliases(tags, out) {
                    Ok(_) => Ok(None),
                    Err(error) => Err(error),
                }
            } else {
                match pier.list_scripts(tags, query_full, query_width) {
                    Ok(table) => Ok(Some(table)),
                    Err(error) => Err(error),
                }
            }
        },
        CliSubcommand::ConfigInit => Ok(None),
    }
}

/// Handles a command line: loads the registry and runs the command on
/// it. `load` and `editor` do the reading and the editing. The lines to
/// print are added to `out`; the table to print and the registry to
/// persist are returned.
pub fn handle_subcommands<L, E>(
    cli: Cli,
    around: Surroundings,
    load: L,
    editor: E,
    out: &mut Vec<String>,
) -> (done: PierResult<Handled>) where
    L: FnOnce(&String) -> Result<StoredConfig, LoadFailure>,
    E: FnOnce(&String) -> Result<String, String>,

    requires
        forall|path: &String| load.requires((path,)),
        forall|seed: &String| editor.requires((seed,)),
    ensures
        is_handled(
            cli,
            around,
            load,
            editor,
            done,
            old(out).deep_view(),
            final(out).deep_view(),
        ),
{
    let Cli { opts, alias: _, args: _, cmd } = cli;
    let cmd = match cmd {
        Some(cmd) => cmd,
        None => {
            return Ok(Handled { table: None, persist: None });
        },
    };
    if let CliSubcommand::ConfigInit = cmd {
        let new_path = match opts.path {
            Some(path) => Some(PathProbe { path, exists: around.given_exists }),
            None => None,
        };
        let mut pier = Pier::new();
        let ghost before = pier;
        let prepared = pier.prepare_init(new_path, &around.found, around.default_init, out);
        let ghost target = choose|target: PathProbe|
            is_init_target(new_path, around.found@, around.default_init, target)
                && Pier::is_prepared(
                prepared,
                before,
                pier,
                target,
                old(out).deep_view(),
                out.deep_view(),
            );
        let ghost after = pier;
        let done = match prepared {
            Ok(_) => Ok(Handled { table: None, persist: Some(pier) }),
            Err(error) => Err(error),
        };
        assert(Pier::is_prepared(
            done,
            before,
            after,
            target,
            old(out).deep_view(),
            out.deep_view(),
        ));
        return done;
    }
    let mut pier = match Pier::from(opts.path, &around.found, opts.verbose, load) {
        Ok(pier) => pier,
        Err(error) => {
            return Err(error);
        },
    };
    let changes = match cmd {
        CliSubcommand::Show { .. } => false,
        CliSubcommand::List { .. } => false,
        _ => true,
    };
    match run(&mut pier, cmd, editor, out) {
        Ok(table) => Ok(Handled { table, persist: if changes { Some(pier) } else { None } }),
        Err(error) => Err(error),
    }
}

} // verus!
