use pier::defaults::FALLBACK_QUERY_DISPLAY_WIDTH;
use pier::error::PierError;
use pier::script::Script;
use pier::script::ScriptRow;
use pier::store::StoredConfig;
use pier::table::listing_table;
use pier::Pier;
use prettytable::Cell;
use prettytable::Row;
use prettytable::Table;

fn tagged(alias: &str, query: &str, tags: Option<&[&str]>) -> Script {
    Script {
        alias: alias.to_string(),
        query: query.to_string(),
        sources: None,
        description: None,
        references: None,
        tags: tags.map(|list| list.iter().map(|tag| tag.to_string()).collect()),
    }
}

fn filter(tags: &[&str]) -> Option<Vec<String>> {
    Some(tags.iter().map(|tag| tag.to_string()).collect())
}

fn sample() -> Pier {
    let mut out = Vec::new();
    let mut pier = Pier::new();
    pier.add_script(tagged("q1", "SELECT 1", Some(&["db"])), false, &mut out).unwrap();
    pier.add_script(tagged("w1", "curl x", Some(&["web", "prod"])), false, &mut out).unwrap();
    pier.add_script(tagged("n1", "ls", None), false, &mut out).unwrap();
    pier.add_script(tagged("q2", "SELECT 2", Some(&["prod", "db"])), false, &mut out).unwrap();
    pier
}

fn listed(pier: &Pier, tags: Option<Vec<String>>) -> Result<Vec<String>, PierError> {
    let mut out = Vec::new();
    pier.list_aliases(tags, &mut out).map(|_| out)
}

fn styled_row(cells: [&str; 6], styles: [&str; 6]) -> Row {
    Row::new(
        cells
            .iter()
            .zip(styles.iter())
            .map(|(text, style)| Cell::new(text).style_spec(style))
            .collect(),
    )
}

#[test]
fn listing_an_empty_registry_fails_with_no_scripts() {
    let pier = Pier::new();
    let mut out = vec!["kept".to_string()];
    assert_eq!(pier.list_aliases(None, &mut out), Err(PierError::NoScriptsExists));
    assert_eq!(pier.list_aliases(filter(&["db"]), &mut out), Err(PierError::NoScriptsExists));
    assert_eq!(out, vec!["kept".to_string()]);
    assert_eq!(pier.script_rows(None, false, None), Err(PierError::NoScriptsExists));
    assert_eq!(pier.list_scripts(None, false, None), Err(PierError::NoScriptsExists));
    assert_eq!(pier.list_scripts(filter(&["db"]), true, Some(3)), Err(PierError::NoScriptsExists));
    assert_eq!(pier.fetch_script("q1"), Err(PierError::NoScriptsExists));
}

#[test]
fn list_aliases_with_a_matching_tag_prints_the_alias() {
    let mut out = Vec::new();
    let mut pier = Pier::new();
    pier.add_script(tagged("q1", "SELECT 1", Some(&["db"])), false, &mut out).unwrap();
    assert_eq!(listed(&pier, filter(&["db"])), Ok(vec!["q1".to_string()]));
    assert_eq!(listed(&pier, filter(&["web"])), Ok(Vec::new()));
}

#[test]
fn list_aliases_without_a_filter_lists_all_in_registry_order() {
    assert_eq!(listed(&sample(), None), Ok(vec![
        "q1".to_string(),
        "w1".to_string(),
        "n1".to_string(),
        "q2".to_string(),
    ]));
}

#[test]
fn list_aliases_adds_behind_the_lines_that_are_there() {
    let mut out = vec!["first".to_string()];
    assert_eq!(sample().list_aliases(filter(&["web"]), &mut out), Ok(()));
    assert_eq!(out, vec!["first".to_string(), "w1".to_string()]);
}

#[test]
fn list_aliases_lists_an_entry_once_however_many_tags_match() {
    let pier = sample();
    assert_eq!(listed(&pier, filter(&["db", "prod"])), Ok(vec![
        "q1".to_string(),
        "w1".to_string(),
        "q2".to_string(),
    ]));
    assert_eq!(listed(&pier, filter(&["db", "db"])), Ok(vec![
        "q1".to_string(),
        "q2".to_string(),
    ]));
}

#[test]
fn list_aliases_with_a_filter_excludes_entries_without_tags() {
    let pier = sample();
    assert_eq!(listed(&pier, filter(&["prod"])), Ok(vec!["w1".to_string(), "q2".to_string()]));
    assert_eq!(listed(&pier, filter(&[])), Ok(Vec::new()));
    assert_eq!(listed(&pier, filter(&["none"])), Ok(Vec::new()));
}

#[test]
fn script_rows_without_a_filter_has_a_row_for_every_entry() {
    let rows = sample().script_rows(None, false, None).unwrap();
    let aliases: Vec<&str> = rows.iter().map(|row| row.alias.as_str()).collect();
    assert_eq!(aliases, vec!["q1", "w1", "n1", "q2"]);
    assert_eq!(rows[1].tags, "web,prod");
    assert_eq!(rows[2].tags, "");
    assert_eq!(rows[3].query, "SELECT 2");
}

#[test]
fn script_rows_with_a_filter_has_the_matching_rows_only() {
    let rows = sample().script_rows(filter(&["db"]), false, None).unwrap();
    assert_eq!(rows, vec![
        ScriptRow {
            alias: "q1".to_string(),
            tags: "db".to_string(),
            query: "SELECT 1".to_string(),
            sources: String::new(),
            description: String::new(),
            references: String::new(),
        },
        ScriptRow {
            alias: "q2".to_string(),
            tags: "prod,db".to_string(),
            query: "SELECT 2".to_string(),
            sources: String::new(),
            description: String::new(),
            references: String::new(),
        },
    ]);
}

#[test]
fn display_width_prefers_the_argument_then_the_registry_then_the_fallback() {
    let long = "x".repeat(150);
    let stored = StoredConfig {
        query_width: Some(7),
        scripts: vec![pier::store::StoredEntry {
            alias: "q".to_string(),
            script: pier::store::StoredScript {
                query: long.clone(),
                sources: None,
                description: None,
                references: None,
                tags: None,
            },
        }],
    };
    let with_default = Pier::from_loaded("p".to_string(), false, Ok(stored)).unwrap();
    assert_eq!(with_default.script_rows(None, false, Some(3)).unwrap()[0].query, "xxx");
    assert_eq!(with_default.script_rows(None, false, None).unwrap()[0].query, "xxxxxxx");
    assert_eq!(with_default.script_rows(None, true, Some(3)).unwrap()[0].query, long);

    let mut out = Vec::new();
    let mut plain = Pier::new();
    plain.add_script(tagged("q", &long, None), false, &mut out).unwrap();
    assert_eq!(FALLBACK_QUERY_DISPLAY_WIDTH, 100);
    assert_eq!(plain.script_rows(None, false, None).unwrap()[0].query, "x".repeat(100));
    assert_eq!(plain.script_rows(None, false, Some(120)).unwrap()[0].query, "x".repeat(120));
}

#[test]
fn listing_table_has_styled_titles_and_rows() {
    let rows = vec![
        ScriptRow {
            alias: "q1".to_string(),
            tags: "db,prod".to_string(),
            query: "SELECT 1".to_string(),
            sources: "lake".to_string(),
            description: "first".to_string(),
            references: "r1,r2".to_string(),
        },
        ScriptRow {
            alias: "n1".to_string(),
            tags: String::new(),
            query: "ls".to_string(),
            sources: String::new(),
            description: String::new(),
            references: String::new(),
        },
    ];
    let mut expected = Table::new();
    expected.set_titles(styled_row(
        ["Alias", "Tags", "Query", "Data Sources", "Description", "References"],
        ["Fc", "Fc", "Fc", "Fc", "Fc", "Fc"],
    ));
    expected.add_row(styled_row(
        ["q1", "db,prod", "SELECT 1", "lake", "first", "r1,r2"],
        ["FY", "Fg", "Fb", "Fw", "Fw", "Fw"],
    ));
    expected
        .add_row(styled_row(["n1", "", "ls", "", "", ""], ["FY", "Fg", "Fb", "Fw", "Fw", "Fw"]));
    assert_eq!(listing_table(&rows), expected);
}

#[test]
fn listing_table_of_no_rows_has_titles_only() {
    let table = listing_table(&Vec::new());
    assert_eq!(table.len(), 0);
    let mut expected = Table::new();
    expected.set_titles(styled_row(
        ["Alias", "Tags", "Query", "Data Sources", "Description", "References"],
        ["Fc", "Fc", "Fc", "Fc", "Fc", "Fc"],
    ));
    assert_eq!(table, expected);
    assert_ne!(table, Table::new());
}

#[test]
fn listing_table_cells_are_not_plain_cells() {
    let rows = vec![ScriptRow {
        alias: "q1".to_string(),
        tags: "db".to_string(),
        query: "SELECT 1".to_string(),
        sources: String::new(),
        description: String::new(),
        references: String::new(),
    }];
    let table = listing_table(&rows);
    let row = table.get_row(0).unwrap();
    assert_eq!(row.len(), 6);
    assert_eq!(row.get_cell(0).unwrap().get_content(), "q1");
    assert_ne!(row.get_cell(0).unwrap(), &Cell::new("q1"));
    assert_eq!(row.get_cell(0).unwrap(), &Cell::new("q1").style_spec("FY"));
    assert_eq!(row.get_cell(1).unwrap(), &Cell::new("db").style_spec("Fg"));
    assert_eq!(row.get_cell(2).unwrap(), &Cell::new("SELECT 1").style_spec("Fb"));
    assert_eq!(row.get_cell(3).unwrap(), &Cell::new("").style_spec("Fw"));
}

#[test]
fn list_scripts_shows_the_selected_scripts_with_cut_queries() {
    let table = sample().list_scripts(filter(&["db"]), false, Some(6)).unwrap();
    assert_eq!(table.len(), 2);
    let texts: Vec<Vec<String>> = table
        .row_iter()
        .map(|row| row.iter().map(|cell| cell.get_content()).collect())
        .collect();
    assert_eq!(texts, vec![
        vec!["q1", "db", "SELECT", "", "", ""],
        vec!["q2", "prod,db", "SELECT", "", "", ""],
    ]);
}

#[test]
fn list_scripts_in_full_keeps_the_lines_of_a_query() {
    let mut out = Vec::new();
    let mut pier = Pier::new();
    pier.add_script(tagged("q", "SELECT 1\nFROM t\n", None), false, &mut out).unwrap();
    let table = pier.list_scripts(None, true, None).unwrap();
    let cell = table.get_row(0).unwrap().get_cell(2).unwrap();
    assert_eq!(cell.get_content(), "SELECT 1\nFROM t");
}

/// The lines of `text`, taken one first line after the other.
fn lines_by_first_line(text: &str) -> Vec<String> {
    let mut lines = Vec::new();
    let mut rest = text;
    while !rest.is_empty() {
        let line = pier::text::first_line_of(rest);
        lines.push(line.to_string());
        rest = &rest[line.len()..];
        rest = rest.strip_prefix("\r\n").or(rest.strip_prefix('\n')).unwrap_or("");
    }
    lines
}

#[test]
fn a_cell_holds_the_lines_of_its_text() {
    let texts = [
        "",
        "one",
        "one\n",
        "one\ntwo",
        "one\r\ntwo\r\n",
        "\n",
        "\n\n",
        "\r\n",
        "one\n\ntwo",
        "one\r",
        "one\rtwo\n",
        "é\nü",
    ];
    for text in texts.iter() {
        let lines = lines_by_first_line(text);
        assert_eq!(text.lines().map(|line| line.to_string()).collect::<Vec<String>>(), lines);
        let rows = vec![ScriptRow {
            alias: text.to_string(),
            tags: String::new(),
            query: String::new(),
            sources: String::new(),
            description: String::new(),
            references: String::new(),
        }];
        let table = listing_table(&rows);
        let cell = table.get_row(0).unwrap().get_cell(0).unwrap();
        assert_eq!(cell.get_content(), lines.join("\n"));
    }
}

fn row_with_alias(alias: &str) -> ScriptRow {
    ScriptRow {
        alias: alias.to_string(),
        tags: "a\u{1b}b".to_string(),
        query: "\u{1b}".to_string(),
        sources: String::new(),
        description: "plain".to_string(),
        references: "\u{1b}[0m".to_string(),
    }
}

#[test]
fn listing_table_leaves_escape_characters_out() {
    let table = listing_table(&vec![row_with_alias("\u{1b}[\u{301}\u{301}")]);
    let row = table.get_row(0).unwrap();
    let texts: Vec<String> = row.iter().map(|cell| cell.get_content()).collect();
    assert_eq!(texts, vec!["[\u{301}\u{301}", "ab", "", "", "plain", "[0m"]);
    assert_eq!(row.get_cell(0).unwrap(), &Cell::new("[\u{301}\u{301}").style_spec("FY"));
    let printed = table.to_string();
    assert!(printed.contains("plain"));
    assert!(printed.contains("Alias"));
    assert!(!printed.contains('\u{1b}'));
}

#[test]
fn listing_table_shows_colour_codes_without_their_escape_character() {
    let table = listing_table(&vec![row_with_alias("\u{1b}[31mred\u{1b}[0m\nnext\u{1b}")]);
    let cell = table.get_row(0).unwrap().get_cell(0).unwrap();
    assert_eq!(cell.get_content(), "[31mred[0m\nnext");
}

#[test]
fn list_scripts_accepts_a_script_with_escape_characters() {
    let mut out = Vec::new();
    let mut pier = Pier::new();
    let mut script = tagged("\u{1b}[\u{301}\u{301}", "\u{1b}[\u{301}\u{301}\u{301} q", None);
    script.description = Some("\u{1b}[\u{300}".to_string());
    pier.add_script(script, false, &mut out).unwrap();
    let rows = pier.script_rows(None, false, None).unwrap();
    assert_eq!(rows[0].alias, "\u{1b}[\u{301}\u{301}");
    assert_eq!(rows[0].query, "\u{1b}[\u{301}\u{301}\u{301} q");
    let table = pier.list_scripts(None, false, None).unwrap();
    let row = table.get_row(0).unwrap();
    assert_eq!(row.get_cell(0).unwrap().get_content(), "[\u{301}\u{301}");
    assert_eq!(row.get_cell(2).unwrap().get_content(), "[\u{301}\u{301}\u{301} q");
    assert_eq!(row.get_cell(4).unwrap().get_content(), "[\u{300}");
}
