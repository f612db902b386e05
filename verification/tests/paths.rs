use pier::defaults::default_config_locations;
use pier::defaults::default_init_location;
use pier::defaults::fallback_path;
use pier::defaults::resolve_path;
use pier::defaults::BaseDir;
use pier::defaults::ConfigLocation;
use pier::defaults::PathProbe;
use pier::error::exit_code;
use pier::error::PierError;
use pier::error::PierResult;
use pier::store::LoadFailure;
use pier::store::SaveFailure;
use pier::store::StoredConfig;
use pier::Pier;

fn probe(path: &str, exists: bool) -> PathProbe {
    PathProbe { path: path.to_string(), exists }
}

fn location(base: BaseDir, file: &str) -> ConfigLocation {
    ConfigLocation { base, file: file.to_string() }
}

fn no_content() -> StoredConfig {
    StoredConfig { query_width: None, scripts: Vec::new() }
}

#[test]
fn fallback_locations_are_tried_in_the_fixed_order() {
    assert_eq!(default_config_locations(), vec![
        location(BaseDir::WorkingDir, "pier.toml"),
        location(BaseDir::ConfigHome, "pier/config.toml"),
        location(BaseDir::ConfigHome, "pier/config"),
        location(BaseDir::ConfigHome, "pier.toml"),
        location(BaseDir::Home, ".pier.toml"),
        location(BaseDir::Home, ".pier"),
    ]);
}

#[test]
fn initialisation_defaults_to_the_config_home() {
    assert_eq!(default_init_location(), location(BaseDir::ConfigHome, "pier/config.toml"));
}

#[test]
fn fallback_path_is_the_first_that_exists() {
    let found = vec![probe("a", false), probe("b", true), probe("c", true)];
    assert_eq!(fallback_path(&found), Ok("b".to_string()));
    let first = vec![probe("a", true), probe("b", true)];
    assert_eq!(fallback_path(&first), Ok("a".to_string()));
    let last = vec![probe("a", false), probe("b", false), probe("c", true)];
    assert_eq!(fallback_path(&last), Ok("c".to_string()));
}

#[test]
fn fallback_path_fails_when_none_exists() {
    let found = vec![probe("a", false), probe("b", false)];
    assert_eq!(fallback_path(&found), Err(PierError::NoConfigFile));
    assert_eq!(fallback_path(&Vec::new()), Err(PierError::NoConfigFile));
}

#[test]
fn an_explicit_path_is_returned_as_it_is() {
    let found = vec![probe("a", true)];
    assert_eq!(resolve_path(Some("given/path".to_string()), &found), Ok("given/path".to_string()));
    assert_eq!(resolve_path(Some(String::new()), &Vec::new()), Ok(String::new()));
    assert_eq!(resolve_path(None, &found), Ok("a".to_string()));
    assert_eq!(resolve_path(None, &Vec::new()), Err(PierError::NoConfigFile));
}

#[test]
fn from_loads_the_explicit_path_or_the_first_fallback() {
    let found = vec![probe("a", false), probe("b", true)];
    let mut asked = Vec::new();
    let given = Pier::from(Some("given".to_string()), &found, false, |path: &String| {
        asked.push(path.clone());
        Ok(no_content())
    });
    assert_eq!(given.unwrap().config_path(), "given");
    let fallback = Pier::from(None, &found, true, |path: &String| {
        asked.push(path.clone());
        Ok(no_content())
    });
    let pier = fallback.unwrap();
    assert_eq!(pier.config_path(), "b");
    assert!(pier.is_verbose());
    assert_eq!(asked, vec!["given".to_string(), "b".to_string()]);
}

#[test]
fn from_without_any_file_fails_and_loads_nothing() {
    let found = vec![probe("a", false)];
    let mut loaded = false;
    let made = Pier::from(None, &found, false, |_path: &String| {
        loaded = true;
        Ok(no_content())
    });
    assert_eq!(made.err(), Some(PierError::NoConfigFile));
    assert!(!loaded);
}

#[test]
fn from_reports_a_failed_load_with_the_chosen_path() {
    let found = vec![probe("a", true)];
    let made = Pier::from(None, &found, false, |_path: &String| {
        Err(LoadFailure::Parse { cause: "bad".to_string() })
    });
    assert_eq!(
        made.err(),
        Some(PierError::ConfigParse { path: "a".to_string(), cause: "bad".to_string() })
    );
}

#[test]
fn config_init_refuses_a_path_that_exists() {
    let mut out = Vec::new();
    let mut pier = Pier::new();
    let mut saved = false;
    let done = pier.config_init(
        Some(probe("there.toml", true)),
        &Vec::new(),
        probe("default.toml", false),
        |_path: &String, _stored: StoredConfig| {
            saved = true;
            Ok(())
        },
        &mut out,
    );
    assert_eq!(
        done,
        Err(PierError::ConfigInitFileAlreadyExists { path: "there.toml".to_string() })
    );
    assert!(!saved);
    assert!(out.is_empty());
    assert_eq!(pier.len(), 0);
    assert_eq!(pier.config_path(), "");
}

#[test]
fn config_init_on_a_fresh_path_creates_one_example_script() {
    let mut out = Vec::new();
    let mut pier = Pier::new();
    let mut saved = Vec::new();
    let done = pier.config_init(
        Some(probe("fresh.toml", false)),
        &vec![probe("a", true)],
        probe("default.toml", false),
        |path: &String, stored: StoredConfig| {
            saved.push((path.clone(), stored));
            Ok(())
        },
        &mut out,
    );
    assert_eq!(done, Ok(()));
    assert_eq!(out, vec!["Added hello-pier".to_string()]);
    assert_eq!(saved.len(), 1);
    assert_eq!(saved[0].0, "fresh.toml");
    assert_eq!(saved[0].1.query_width, None);
    assert_eq!(saved[0].1.scripts.len(), 1);
    assert_eq!(saved[0].1.scripts[0].alias, "hello-pier");
    assert_eq!(saved[0].1.scripts[0].script.query, "select * from querylake");
    assert_eq!(
        saved[0].1.scripts[0].script.description,
        Some("This is an example query.".to_string())
    );
    assert_eq!(saved[0].1.scripts[0].script.sources, None);
    assert_eq!(saved[0].1.scripts[0].script.references, None);
    assert_eq!(saved[0].1.scripts[0].script.tags, None);
    assert_eq!(pier.config_path(), "fresh.toml");
    assert_eq!(pier.len(), 1);
}

#[test]
fn config_init_without_a_path_never_replaces_a_fallback_file() {
    let mut out = Vec::new();
    let mut pier = Pier::new();
    let done = pier.config_init(
        None,
        &vec![probe("a", false), probe("b", true)],
        probe("default.toml", false),
        |_path: &String, _stored: StoredConfig| Ok(()),
        &mut out,
    );
    assert_eq!(done, Err(PierError::ConfigInitFileAlreadyExists { path: "b".to_string() }));
}

#[test]
fn config_init_without_a_path_and_without_a_file_uses_the_default() {
    let mut out = Vec::new();
    let mut pier = Pier::new();
    let mut target = String::new();
    let done = pier.config_init(
        None,
        &vec![probe("a", false)],
        probe("home/.config/pier/config.toml", false),
        |path: &String, _stored: StoredConfig| {
            target = path.clone();
            Ok(())
        },
        &mut out,
    );
    assert_eq!(done, Ok(()));
    assert_eq!(target, "home/.config/pier/config.toml");
    assert_eq!(pier.config_path(), "home/.config/pier/config.toml");
}

#[test]
fn config_init_reports_a_directory_that_cannot_be_created() {
    let mut out = Vec::new();
    let mut pier = Pier::new();
    let done = pier.config_init(
        Some(probe("deep/fresh.toml", false)),
        &Vec::new(),
        probe("default.toml", false),
        |_path: &String, _stored: StoredConfig| {
            Err(SaveFailure::CreateDirectory { cause: "denied".to_string() })
        },
        &mut out,
    );
    assert_eq!(done, Err(PierError::CreateDirectory { cause: "denied".to_string() }));
}

#[test]
fn prepare_init_keeps_a_script_that_has_the_alias_of_the_example() {
    let mut out = Vec::new();
    let mut pier = Pier::new();
    let mine = pier::script::Script {
        alias: "hello-pier".to_string(),
        query: "mine".to_string(),
        sources: None,
        description: None,
        references: None,
        tags: None,
    };
    pier.add_script(mine, false, &mut out).unwrap();
    out.clear();
    let done = pier.prepare_init(None, &Vec::new(), probe("default.toml", false), &mut out);
    assert_eq!(done, Ok(()));
    assert!(out.is_empty());
    assert_eq!(pier.len(), 1);
    assert_eq!(pier.fetch_script("hello-pier").unwrap().query, "mine");
    assert_eq!(pier.config_path(), "default.toml");
}

#[test]
fn exit_code_is_zero_on_success_and_one_on_error() {
    let fine: PierResult<()> = Ok(());
    let failed: PierResult<()> = Err(PierError::NoScriptsExists);
    assert_eq!(exit_code(&fine), 0);
    assert_eq!(exit_code(&failed), 1);
}
