//! The registry: the scripts of one backing file, each under its alias,
//! and the display defaults that the file sets.

use crate::script::Script;
use crate::script::ScriptView;
use crate::text::str_eq;
use vstd::prelude::*;

verus! {

/// Whether some entry of `entries` is stored under `alias`.
pub open spec fn has_alias(entries: Seq<ScriptView>, alias: Seq<char>) -> bool {
    exists|i: int| 0 <= i < entries.len() && (#[trigger] entries[i]).alias == alias
}

/// The position of an entry of `entries` stored under `alias`. Meaningful
/// where [`has_alias`] holds.
pub open spec fn alias_index(entries: Seq<ScriptView>, alias: Seq<char>) -> int {
    choose|i: int| 0 <= i < entries.len() && (#[trigger] entries[i]).alias == alias
}

/// No two entries of `entries` share an alias.
pub open spec fn distinct_aliases(entries: Seq<ScriptView>) -> bool {
    forall|i: int, j: int|
        0 <= i < j < entries.len() ==> (#[trigger] entries[i]).alias != (
        #[trigger] entries[j]).alias
}

/// The mapping from alias to script that `entries` stands for.
pub open spec fn as_map(entries: Seq<ScriptView>) -> Map<Seq<char>, ScriptView> {
    Map::new(
        |alias: Seq<char>| has_alias(entries, alias),
        |alias: Seq<char>| entries[alias_index(entries, alias)],
    )
}

/// `entries` after `script` was stored: in the place of the entry that had
/// its alias, or behind the last entry where none had it.
pub open spec fn inserted(entries: Seq<ScriptView>, script: ScriptView) -> Seq<ScriptView> {
    if has_alias(entries, script.alias) {
        entries.update(alias_index(entries, script.alias), script)
    } else {
        entries.push(script)
    }
}

/// `entries` without the entry stored under `alias`.
pub open spec fn removed(entries: Seq<ScriptView>, alias: Seq<char>) -> Seq<ScriptView> {
    if has_alias(entries, alias) {
        entries.remove(alias_index(entries, alias))
    } else {
        entries
    }
}

/// Among entries with distinct aliases, an entry's alias leads back to its
/// position.
pub proof fn lemma_alias_index(entries: Seq<ScriptView>, i: int)
    requires
        distinct_aliases(entries),
        0 <= i < entries.len(),
    ensures
        has_alias(entries, entries[i].alias),
        alias_index(entries, entries[i].alias) == i,
{
}

/// Storing a script keeps the aliases distinct and changes the mapping at
/// the script's alias only.
pub proof fn lemma_inserted(entries: Seq<ScriptView>, script: ScriptView)
    requires
        distinct_aliases(entries),
    ensures
        distinct_aliases(inserted(entries, script)),
        as_map(inserted(entries, script)) == as_map(entries).insert(script.alias, script),
{
    let after = inserted(entries, script);
    // An alias is held afterwards where it was held before or is the
    // script's own.
    assert forall|alias: Seq<char>| has_alias(after, alias) <==> (alias == script.alias
        || has_alias(entries, alias)) by {
        if has_alias(entries, alias) {
            assert(after[alias_index(entries, alias)].alias == alias);
        }
        if alias == script.alias && !has_alias(entries, alias) {
            assert(after[entries.len() as int].alias == alias);
        }
    }
}

/// Taking the script of an alias out keeps the aliases distinct and
/// changes the mapping at that alias only.
pub proof fn lemma_removed(entries: Seq<ScriptView>, alias: Seq<char>)
    requires
        distinct_aliases(entries),
    ensures
        distinct_aliases(removed(entries, alias)),
        as_map(removed(entries, alias)) == as_map(entries).remove(alias),
{
    let after = removed(entries, alias);
    if has_alias(entries, alias) {
        let at = alias_index(entries, alias);
        // The entries behind the one taken out have moved up by one place.
        assert forall|key: Seq<char>| #[trigger]
            as_map(after).contains_key(key) <==> as_map(entries).remove(alias).contains_key(
                key,
            ) by {
            if has_alias(after, key) {
                let i = alias_index(after, key);
                assert(entries[if i < at { i } else { i + 1 }].alias == key);
            }
            if has_alias(entries, key) && key != alias {
                let i = alias_index(entries, key);
                assert(after[if i < at { i } else { i - 1 }].alias == key);
            }
        }
    }
}

/// The scripts of one backing file, in the order in which the registry
/// holds them, and the display width that the file sets. No two scripts
/// share an alias.
#[derive(Debug)]
pub struct Config {
    scripts: Vec<Script>,
    query_width: Option<usize>,
}

impl View for Config {
    type V = Map<Seq<char>, ScriptView>;

    /// The registry as a mapping from alias to script.
    open spec fn view(&self) -> Map<Seq<char>, ScriptView> {
        as_map(self.entries())
    }
}

impl Config {
    /// The scripts in registry order.
    pub closed spec fn entries(&self) -> Seq<ScriptView> {
        Seq::new(self.scripts@.len(), |i: int| self.scripts@[i]@)
    }

    /// The display width that the registry sets, if it sets one.
    pub closed spec fn query_width(&self) -> Option<usize> {
        self.query_width
    }

    /// The registry is valid: no two scripts share an alias.
    pub open spec fn wf(&self) -> bool {
        distinct_aliases(self.entries())
    }

    /// A registry without scripts and without a display width.
    pub fn new() -> (config: Config)
        ensures
            config.wf(),
            config.entries() == Seq::<ScriptView>::empty(),
            config.query_width() is None,
    {
        Config { scripts: Vec::new(), query_width: None }
    }

    /// The number of scripts.
    pub fn len(&self) -> (count: usize)
        ensures
            count == self.entries().len(),
    {
        self.scripts.len()
    }

    /// Whether the registry holds no script.
    pub fn is_empty(&self) -> (empty: bool)
        ensures
            empty == (self.entries().len() == 0),
    {
        self.scripts.len() == 0
    }

    /// The display width that the registry sets, if it sets one.
    pub fn default_query_width(&self) -> (width: Option<usize>)
        ensures
            width == self.query_width(),
    {
        self.query_width
    }

    /// Sets or clears the display width of the registry.
    pub fn set_default_query_width(&mut self, width: Option<usize>)
        ensures
            final(self).query_width() == width,
            final(self).entries() == old(self).entries(),
    {
        self.query_width = width;
    }

    /// The script at position `index` of the registry order.
    pub fn entry(&self, index: usize) -> (script: &Script)
        requires
            index < self.entries().len(),
        ensures
            script@ == self.entries()[index as int],
    {
        &self.scripts[index]
    }

    /// The position of the script stored under `alias`.
    pub fn position(&self, alias: &str) -> (found: Option<usize>)
        requires
            self.wf(),
        ensures
            match found {
                Some(index) => has_alias(self.entries(), alias@) && index == alias_index(
                    self.entries(),
                    alias@,
                ) && index < self.entries().len(),
                None => !has_alias(self.entries(), alias@),
            },
    {
        let mut i: usize = 0;
        while i < self.scripts.len()
            invariant
                i <= self.scripts.len(),
                self.wf(),
                forall|j: int| 0 <= j < i ==> (#[trigger] self.entries()[j]).alias != alias@,
            decreases self.scripts.len() - i,
        {
            if str_eq(self.scripts[i].alias.as_str(), alias) {
                proof {
                    lemma_alias_index(self.entries(), i as int);
                }
                return Some(i);
            }
            i += 1;
        }
        None
    }

    /// Whether a script is stored under `alias`.
    pub fn contains_key(&self, alias: &str) -> (held: bool)
        requires
            self.wf(),
        ensures
            held == self@.contains_key(alias@),
            held == has_alias(self.entries(), alias@),
    {
        self.position(alias).is_some()
    }

    /// The script stored under `alias`.
    pub fn get(&self, alias: &str) -> (found: Option<&Script>)
        requires
            self.wf(),
        ensures
            match found {
                Some(script) => self@.contains_key(alias@) && script@ == self@[alias@],
                None => !self@.contains_key(alias@),
            },
    {
        match self.position(alias) {
            Some(index) => Some(&self.scripts[index]),
            None => None,
        }
    }

    /// Stores `script` under its alias: in the place of the script that was
    /// stored under it, or behind the last script where none was.
    pub fn insert(&mut self, script: Script)
        requires
            old(self).wf(),
        ensures
            final(self).wf(),
            final(self).entries() == inserted(old(self).entries(), script@),
            final(self)@ == old(self)@.insert(script@.alias, script@),
            final(self).query_width() == old(self).query_width(),
    {
        proof {
            lemma_inserted(self.entries(), script@);
        }
        match self.position(script.alias.as_str()) {
            Some(index) => {
                self.scripts.set(index, script);
            },
            None => {
                self.scripts.push(script);
            },
        }
        assert(self.entries() =~= inserted(old(self).entries(), script@));
    }

    /// Replaces the query of the script stored under `alias`, and says
    /// whether there was such a script.
    pub fn set_query(&mut self, alias: &str, query: String) -> (held: bool)
        requires
            old(self).wf(),
        ensures
            final(self).wf(),
            held == old(self)@.contains_key(alias@),
            held ==> final(self).entries() == old(self).entries().update(
                alias_index(old(self).entries(), alias@),
                old(self)@[alias@].with_query(query@),
            ),
            held ==> final(self)@ == old(self)@.insert(
                alias@,
                old(self)@[alias@].with_query(query@),
            ),
            !held ==> final(self).entries() == old(self).entries(),
            final(self).query_width() == old(self).query_width(),
    {
        match self.position(alias) {
            Some(index) => {
                proof {
                    lemma_inserted(self.entries(), self@[alias@].with_query(query@));
                }
                self.scripts[index].query = query;
                assert(self.entries() =~= old(self).entries().update(
                    index as int,
                    old(self)@[alias@].with_query(query@),
                ));
                true
            },
            None => false,
        }
    }

    /// Takes the script stored under `alias` out of the registry and
    /// returns it. The other scripts keep their order.
    pub fn remove(&mut self, alias: &str) -> (taken: Option<Script>)
        requires
            old(self).wf(),
        ensures
            final(self).wf(),
            final(self).entries() == removed(old(self).entries(), alias@),
            final(self)@ == old(self)@.remove(alias@),
            final(self).query_width() == old(self).query_width(),
            match taken {
                Some(script) => old(self)@.contains_key(alias@) && script@ == old(self)@[alias@],
                None => !old(self)@.contains_key(alias@),
            },
    {
        proof {
            lemma_removed(self.entries(), alias@);
        }
        match self.position(alias) {
            Some(index) => {
                let script = self.scripts.remove(index);
                assert(self.entries() =~= removed(old(self).entries(), alias@));
                Some(script)
            },
            None => None,
        }
    }
}

} // verus!
