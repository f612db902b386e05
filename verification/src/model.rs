//! The operations of the registry as functions on its scripts: what each
//! of them makes of the scripts that are there, and what it reports.

use crate::config::alias_index;
use crate::config::has_alias;
use crate::config::inserted;
use crate::config::removed;
use crate::defaults::none_exists;
use crate::defaults::resolves_to;
use crate::defaults::PathProbe;
use crate::error::ErrorView;
use crate::script::row_of;
use crate::script::tags_match;
use crate::script::RowView;
use crate::script::ScriptView;
use vstd::prelude::*;

verus! {

/// What fetching the script of `alias` from `entries` gives: an error for a
/// registry without scripts, another for an alias that it does not hold,
/// else the script.
pub open spec fn fetched(entries: Seq<ScriptView>, alias: Seq<char>) -> Result<
    ScriptView,
    ErrorView,
> {
    if entries.len() == 0 {
        Err(ErrorView::NoScriptsExists)
    } else if !has_alias(entries, alias) {
        Err(ErrorView::AliasNotFound { alias })
    } else {
        Ok(entries[alias_index(entries, alias)])
    }
}

/// The entries after the query of the script of `alias` was replaced by
/// `query`, or the error that fetching that script gives.
pub open spec fn after_edit(entries: Seq<ScriptView>, alias: Seq<char>, query: Seq<char>) -> Result<
    Seq<ScriptView>,
    ErrorView,
> {
    match fetched(entries, alias) {
        Ok(script) => Ok(entries.update(alias_index(entries, alias), script.with_query(query))),
        Err(error) => Err(error),
    }
}

/// The entries after the script of `alias` was removed, or the error that
/// fetching that script gives.
pub open spec fn after_remove(entries: Seq<ScriptView>, alias: Seq<char>) -> Result<
    Seq<ScriptView>,
    ErrorView,
> {
    match fetched(entries, alias) {
        Ok(_) => Ok(removed(entries, alias)),
        Err(error) => Err(error),
    }
}

/// The entries after `script` was added. Without `force` an alias that is
/// taken is an error; with it the script replaces the one that was there.
pub open spec fn after_add(entries: Seq<ScriptView>, script: ScriptView, force: bool) -> Result<
    Seq<ScriptView>,
    ErrorView,
> {
    if !force && has_alias(entries, script.alias) {
        Err(ErrorView::AliasAlreadyExists { alias: script.alias })
    } else {
        Ok(inserted(entries, script))
    }
}

/// The entries after the script of `from` was copied to the alias `to`. A
/// destination that is taken is an error, whatever the source; then a
/// source that is missing is one.
pub open spec fn after_copy(entries: Seq<ScriptView>, from: Seq<char>, to: Seq<char>) -> Result<
    Seq<ScriptView>,
    ErrorView,
> {
    if has_alias(entries, to) {
        Err(ErrorView::AliasAlreadyExists { alias: to })
    } else if !has_alias(entries, from) {
        Err(ErrorView::AliasNotFound { alias: from })
    } else {
        Ok(entries.push(entries[alias_index(entries, from)].renamed(to)))
    }
}

/// The entries after the script of `from` was moved to the alias `to`. A
/// source that is missing is an error; then, without `force`, a
/// destination that is taken is one.
pub open spec fn after_move(
    entries: Seq<ScriptView>,
    from: Seq<char>,
    to: Seq<char>,
    force: bool,
) -> Result<Seq<ScriptView>, ErrorView> {
    if !has_alias(entries, from) {
        Err(ErrorView::AliasNotFound { alias: from })
    } else if !force && has_alias(entries, to) {
        Err(ErrorView::AliasAlreadyExists { alias: to })
    } else {
        Ok(inserted(removed(entries, from), entries[alias_index(entries, from)].renamed(to)))
    }
}

/// The script that initialisation puts into a new registry.
pub open spec fn example_script() -> ScriptView {
    ScriptView {
        alias: "hello-pier"@,
        query: "select * from querylake"@,
        sources: None,
        description: Some("This is an example query."@),
        references: None,
        tags: None,
    }
}

/// The entries after initialisation added the example script: the example
/// stands behind the last entry, unless its alias was taken.
pub open spec fn after_init(entries: Seq<ScriptView>) -> Seq<ScriptView> {
    match after_add(entries, example_script(), false) {
        Ok(added) => added,
        Err(_) => entries,
    }
}

/// The entries that pass the tag filter, in registry order.
pub open spec fn selected(entries: Seq<ScriptView>, filter: Option<Seq<Seq<char>>>) -> Seq<
    ScriptView,
> {
    entries.filter(|entry: ScriptView| tags_match(entry.tags, filter))
}

/// The aliases of `entries`, in their order.
pub open spec fn aliases_of(entries: Seq<ScriptView>) -> Seq<Seq<char>> {
    Seq::new(entries.len(), |i: int| entries[i].alias)
}

/// The listing rows of `entries`, in their order.
pub open spec fn rows_of(entries: Seq<ScriptView>, full: bool, width: int) -> Seq<RowView> {
    Seq::new(entries.len(), |i: int| row_of(entries[i], full, width))
}

/// The message that confirms that a script was added under `alias`.
pub open spec fn added_message(alias: Seq<char>) -> Seq<char> {
    "Added "@ + alias
}

/// The message that confirms that the script of `alias` was removed.
pub open spec fn removed_message(alias: Seq<char>) -> Seq<char> {
    "Removed "@ + alias
}

/// The message that confirms that the script of `alias` was edited.
pub open spec fn edited_message(alias: Seq<char>) -> Seq<char> {
    "Edited "@ + alias
}

/// The message that confirms that the script of `from` was copied to `to`.
pub open spec fn copied_message(from: Seq<char>, to: Seq<char>) -> Seq<char> {
    "Copy from alias "@ + from + " to new alias "@ + to
}

/// The message that confirms that the script of `from` was moved to `to`.
pub open spec fn moved_message(from: Seq<char>, to: Seq<char>) -> Seq<char> {
    "Move from alias "@ + from + " to new alias "@ + to
}

/// The cause that is reported for content in which two entries have the
/// alias `alias`.
pub open spec fn repeated_alias_cause(alias: Seq<char>) -> Seq<char> {
    "more than one script is stored under the alias "@ + alias
}

/// `target` is the probe of the file that initialisation is to create: the
/// explicit one where there is one, else the first fallback probe that
/// exists, else the default.
pub open spec fn is_init_target(
    new_path: Option<PathProbe>,
    found: Seq<PathProbe>,
    default_path: PathProbe,
    target: PathProbe,
) -> bool {
    match new_path {
        Some(given) => target == given,
        None => if none_exists(found) {
            target == default_path
        } else {
            target.exists && resolves_to(None, found, target.path@)
        },
    }
}

} // verus!
