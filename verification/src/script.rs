//! A script: a query stored under an alias, with optional metadata.

use crate::text::first_line;
use crate::text::first_line_of;
use crate::text::join;
use crate::text::joined;
use crate::text::lemma_first_line_end_unique;
use vstd::prelude::*;
use vstd::string::StrSliceExecFns;

verus! {

/// One stored script. The alias is the key under which the registry holds
/// it; the other fields are its value.
#[derive(Debug, PartialEq, Eq)]
pub struct Script {
    pub alias: String,
    pub query: String,
    pub sources: Option<Vec<String>>,
    pub description: Option<String>,
    pub references: Option<Vec<String>>,
    pub tags: Option<Vec<String>>,
}

/// What a [`Script`] holds, as mathematical sequences of characters.
pub struct ScriptView {
    pub alias: Seq<char>,
    pub query: Seq<char>,
    pub sources: Option<Seq<Seq<char>>>,
    pub description: Option<Seq<char>>,
    pub references: Option<Seq<Seq<char>>>,
    pub tags: Option<Seq<Seq<char>>>,
}

impl ScriptView {
    /// The same value under another alias.
    pub open spec fn renamed(self, alias: Seq<char>) -> ScriptView {
        ScriptView { alias, ..self }
    }

    /// The same script with another query text.
    pub open spec fn with_query(self, query: Seq<char>) -> ScriptView {
        ScriptView { query, ..self }
    }
}

impl View for Script {
    type V = ScriptView;

    open spec fn view(&self) -> ScriptView {
        ScriptView {
            alias: self.alias@,
            query: self.query@,
            sources: self.sources.deep_view(),
            description: self.description.deep_view(),
            references: self.references.deep_view(),
            tags: self.tags.deep_view(),
        }
    }
}

/// The text shown for `query`: all of it when `full` is set; else its first
/// line, cut after `width` characters when it is longer. An empty query is
/// shown as it is.
pub open spec fn display_text(query: Seq<char>, full: bool, width: int) -> Seq<char> {
    if full || query.len() == 0 {
        query
    } else if first_line(query).len() <= width {
        first_line(query)
    } else {
        first_line(query).subrange(0, width)
    }
}

/// Whether an entry with the tags `entry_tags` passes the tag filter
/// `filter`. Without a filter every entry passes. With one, an entry passes
/// when it has tags and at least one requested tag is among them.
pub open spec fn tags_match(
    entry_tags: Option<Seq<Seq<char>>>,
    filter: Option<Seq<Seq<char>>>,
) -> bool {
    match filter {
        None => true,
        Some(wanted) => match entry_tags {
            None => false,
            Some(tags) => exists|i: int|
                0 <= i < wanted.len() && tags.contains(#[trigger] wanted[i]),
        },
    }
}

/// The cell of a listing for an optional list: its items with a comma
/// between neighbours, and nothing where the list is absent.
pub open spec fn list_cell(items: Option<Seq<Seq<char>>>) -> Seq<char> {
    match items {
        Some(list) => joined(list, seq![',']),
        None => Seq::empty(),
    }
}

/// The cell of a listing for an optional text: the text, and nothing where
/// it is absent.
pub open spec fn text_cell(text: Option<Seq<char>>) -> Seq<char> {
    match text {
        Some(content) => content,
        None => Seq::empty(),
    }
}

/// The display width in force: the one asked for, else the one that the
/// registry sets, else `fallback`.
pub open spec fn effective_width(
    asked: Option<usize>,
    default: Option<usize>,
    fallback: usize,
) -> usize {
    match asked {
        Some(width) => width,
        None => match default {
            Some(width) => width,
            None => fallback,
        },
    }
}

/// One row of the script listing: the content of its six cells.
#[derive(Debug, PartialEq, Eq)]
pub struct ScriptRow {
    pub alias: String,
    pub tags: String,
    pub query: String,
    pub sources: String,
    pub description: String,
    pub references: String,
}

/// What a [`ScriptRow`] holds, as mathematical sequences of characters.
pub struct RowView {
    pub alias: Seq<char>,
    pub tags: Seq<char>,
    pub query: Seq<char>,
    pub sources: Seq<char>,
    pub description: Seq<char>,
    pub references: Seq<char>,
}

impl View for ScriptRow {
    type V = RowView;

    open spec fn view(&self) -> RowView {
        RowView {
            alias: self.alias@,
            tags: self.tags@,
            query: self.query@,
            sources: self.sources@,
            description: self.description@,
            references: self.references@,
        }
    }
}

/// What a list of rows holds.
pub open spec fn rows_view(rows: Seq<ScriptRow>) -> Seq<RowView> {
    Seq::new(rows.len(), |i: int| rows[i]@)
}

/// The listing row of `script` when queries are shown in full or cut to
/// `width` characters.
pub open spec fn row_of(script: ScriptView, full: bool, width: int) -> RowView {
    RowView {
        alias: script.alias,
        tags: list_cell(script.tags),
        query: display_text(script.query, full, width),
        sources: list_cell(script.sources),
        description: text_cell(script.description),
        references: list_cell(script.references),
    }
}

/// The items of an optional list with a comma between neighbours.
pub fn join_optional(items: &Option<Vec<String>>) -> (cell: String)
    ensures
        cell@ == list_cell(items.deep_view()),
{
    match items {
        Some(list) => {
            proof {
                reveal_strlit(",");
                assert(","@ =~= seq![',']);
            }
            join(list, ",")
        },
        None => String::new(),
    }
}

/// A copy of a list of strings.
pub fn clone_strings(list: &Vec<String>) -> (copy: Vec<String>)
    ensures
        copy.deep_view() == list.deep_view(),
{
    let mut copy: Vec<String> = Vec::new();
    let mut i: usize = 0;
    while i < list.len()
        invariant
            i <= list.len(),
            copy.len() == i,
            forall|j: int| 0 <= j < i ==> copy[j]@ == list[j]@,
        decreases list.len() - i,
    {
        copy.push(list[i].clone());
        i += 1;
    }
    copy
}

/// A copy of an optional list of strings.
pub fn clone_optional_strings(list: &Option<Vec<String>>) -> (copy: Option<Vec<String>>)
    ensures
        copy.deep_view() == list.deep_view(),
{
    match list {
        Some(items) => Some(clone_strings(items)),
        None => None,
    }
}

/// Whether `item` is one of the strings of `list`.
pub fn contains_string(list: &Vec<String>, item: &String) -> (found: bool)
    ensures
        found == list.deep_view().contains(item@),
{
    let mut i: usize = 0;
    while i < list.len()
        invariant
            i <= list.len(),
            forall|j: int| 0 <= j < i ==> list[j]@ != item@,
        decreases list.len() - i,
    {
        if list[i] == *item {
            assert(list.deep_view()[i as int] == item@);
            return true;
        }
        i += 1;
    }
    false
}

/// Decides whether an entry with the tags `entry_tags` passes the tag
/// filter `filter`.
pub fn matches_tags(entry_tags: &Option<Vec<String>>, filter: &Option<Vec<String>>) -> (pass: bool)
    ensures
        pass == tags_match(entry_tags.deep_view(), filter.deep_view()),
{
    match filter {
        None => true,
        Some(wanted) => match entry_tags {
            None => false,
            Some(tags) => {
                let mut i: usize = 0;
                while i < wanted.len()
                    invariant
                        i <= wanted.len(),
                        *filter == Some(*wanted),
                        *entry_tags == Some(*tags),
                        forall|j: int|
                            0 <= j < i ==> !tags.deep_view().contains(
                                #[trigger] wanted.deep_view()[j],
                            ),
                    decreases wanted.len() - i,
                {
                    if contains_string(tags, &wanted[i]) {
                        proof {
                            let asked = filter.deep_view()->0;
                            let held = entry_tags.deep_view()->0;
                            assert(0 <= i < asked.len() && held.contains(asked[i as int]));
                        }
                        return true;
                    }
                    i += 1;
                }
                false
            },
        },
    }
}

impl Clone for Script {
    fn clone(&self) -> (copy: Self)
        ensures
            copy@ == self@,
    {
        let description = match &self.description {
            Some(text) => Some(text.clone()),
            None => None,
        };
        Script {
            alias: self.alias.clone(),
            query: self.query.clone(),
            sources: clone_optional_strings(&self.sources),
            description,
            references: clone_optional_strings(&self.references),
            tags: clone_optional_strings(&self.tags),
        }
    }
}

impl Script {
    /// The text of the query as a listing shows it: the whole query when
    /// `display_full` is set; else its first line, cut to its first `width`
    /// characters when it has more. The cut counts characters, not bytes.
    pub fn display_query(&self, display_full: bool, width: usize) -> (shown: &str)
        ensures
            shown@ == display_text(self.query@, display_full, width as int),
            display_full ==> shown@ == self.query@,
            !display_full && first_line(self.query@).len() <= width ==> shown@ == first_line(
                self.query@,
            ),
            !display_full && first_line(self.query@).len() > width ==> shown@.len() == width
                && shown@ == first_line(self.query@).subrange(0, width as int),
    {
        proof {
            if self.query@.len() == 0 {
                lemma_first_line_end_unique(self.query@, 0);
            }
        }
        let query = self.query.as_str();
        if display_full || query.is_empty() {
            return query;
        }
        let line = first_line_of(query);
        if line.unicode_len() <= width {
            line
        } else {
            line.substring_char(0, width)
        }
    }

    /// The row that a listing shows for this script.
    pub fn row(&self, display_full: bool, width: usize) -> (row: ScriptRow)
        ensures
            row@ == row_of(self@, display_full, width as int),
    {
        let description = match &self.description {
            Some(text) => text.clone(),
            None => String::new(),
        };
        ScriptRow {
            alias: self.alias.clone(),
            tags: join_optional(&self.tags),
            query: self.display_query(display_full, width).to_owned(),
            sources: join_optional(&self.sources),
            description,
            references: join_optional(&self.references),
        }
    }

    /// A copy of this script stored under `alias`.
    pub fn renamed(&self, alias: String) -> (copy: Script)
        ensures
            copy@ == self@.renamed(alias@),
    {
        let mut copy = self.clone();
        copy.alias = alias;
        copy
    }
}

} // verus!
