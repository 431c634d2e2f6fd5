use boilermaker_core::commands::list::{list, tabled_templates, List};
use boilermaker_core::commands::remove::{
    begin_remove, remove, start_removal, Remove, RemoveAction, RemoveEvent, RemoveState,
};
use boilermaker_core::commands::update::{
    begin_update, start_update, update, Update, UpdateAction, UpdateEvent, UpdateState,
};
use boilermaker_core::config::{make_default_config, TemplateConfig, TemplateConfigProject};
use boilermaker_core::db::local_db::TemplateDb;
use boilermaker_core::db::memory::MemoryCache;
use boilermaker_core::db::template::{
    hash_template_row, TabledTemplateListResult, TemplateMethods, TemplateResult, TemplateRow,
};
use boilermaker_core::error::{ErrorKind, Phase};
use boilermaker_core::state::AppState;
use boilermaker_core::template::static_analysis::{
    find_variables_in_path, find_vars_in_text, names_in_captures, WalkEntry,
};
use boilermaker_core::template::{
    get_lang, get_template_config_path, get_template_dir_path, make_project_dir_path,
    make_tmp_dir_from_url, make_work_dir_path, CloneContext,
};
use boilermaker_core::util::crypto::sha256_hash_string;
use boilermaker_core::util::file::{is_template_file, list_template_files, PathPlan, PathRoot};
use boilermaker_core::util::map::StringMap;
use boilermaker_core::util::string::{chars_of, str_contains};

fn analysis_row(name: &str, created: i32) -> (TemplateRow, i32) {
    (
        TemplateRow {
            name: name.to_string(),
            lang: "rust".to_string(),
            template_dir: format!("/cache/{name}"),
            repo: format!("https://example.com/{name}.git"),
            branch: Some("main".to_string()),
            subdir: None,
            sha256_hash: None,
        },
        created,
    )
}

fn analysis_app(rows: Vec<(TemplateRow, i32)>) -> AppState<MemoryCache> {
    let mut local_db = MemoryCache::new();
    local_db.create_schema().unwrap();
    for (row, at) in rows {
        local_db.create_template(row, at).unwrap();
    }
    AppState { log_level: 0, sys_config: make_default_config(), local_db }
}

#[test]
fn placeholders_are_found_in_order_with_repetitions() {
    let names = find_vars_in_text("{{a}} {{ b }} {{  a  }} {{\tc-d_e\n}}").unwrap();
    assert_eq!(names, vec!["a", "b", "a", "c-d_e"]);
}

#[test]
fn placeholders_need_double_braces_and_a_plain_name() {
    assert!(find_vars_in_text("").unwrap().is_empty());
    assert!(find_vars_in_text("{ a } {{ }} {{ a b }} {{ a.b }} {{a}").unwrap().is_empty());
    assert_eq!(find_vars_in_text("{{{ x }}}").unwrap(), vec!["x"]);
    assert_eq!(find_vars_in_text("{{ größe }} {{ 名前 }} {{ n1 }}").unwrap(), vec!["größe", "名前", "n1"]);
    assert_eq!(find_vars_in_text("println!(\"{{welcome_message}}\");").unwrap(), vec!["welcome_message"]);
}

#[test]
fn groups_after_the_first_are_collected() {
    let matches = vec![
        vec![Some("{{a}}".to_string()), Some("a".to_string())],
        vec![Some("whole".to_string()), None, Some("second".to_string())],
        vec![Some("only the match".to_string())],
        vec![],
    ];
    assert_eq!(names_in_captures(&matches), vec!["a", "second"]);
}

#[test]
fn variables_of_a_walk_are_a_set() {
    let entries = vec![
        WalkEntry::Directory,
        WalkEntry::File("{{ b }} and {{ a }}".to_string()),
        WalkEntry::Directory,
        WalkEntry::File("{{ a }} again, then {{ c }}".to_string()),
        WalkEntry::File("nothing".to_string()),
    ];
    let found = find_variables_in_path(&entries).unwrap();
    assert_eq!(found, vec!["b", "a", "c"]);
    assert!(find_variables_in_path(&vec![]).unwrap().is_empty());
}

#[test]
fn the_first_failure_of_a_walk_is_the_result() {
    let entries = vec![
        WalkEntry::File("{{ a }}".to_string()),
        WalkEntry::WalkFailed("cycle".to_string()),
        WalkEntry::ReadFailed("denied".to_string()),
    ];
    let e = find_variables_in_path(&entries).unwrap_err();
    assert_eq!((e.kind, e.phase, e.detail.as_str()), (ErrorKind::WalkError, Phase::Variables, "cycle"));
    let entries = vec![
        WalkEntry::ReadFailed("denied".to_string()),
        WalkEntry::WalkFailed("cycle".to_string()),
    ];
    let e = find_variables_in_path(&entries).unwrap_err();
    assert_eq!((e.kind, e.phase, e.detail.as_str()), (ErrorKind::IoError, Phase::Variables, "denied"));
}

#[test]
fn template_digest_is_over_the_joined_identity() {
    let (row, _) = analysis_row("n", 0);
    assert_eq!(
        hash_template_row(&row),
        sha256_hash_string("https://example.com/n.git~~n~~rust~~main~~")
    );
    let again = hash_template_row(&row);
    assert_eq!(hash_template_row(&row), again);
    let hashed = row.clone().set_hash_string();
    assert_eq!(hashed.sha256_hash.as_deref(), Some(again.as_str()));
    assert_eq!(hashed.name, "n");
    assert_eq!(hashed.set_hash_string().sha256_hash.as_deref(), Some(again.as_str()));
}

#[test]
fn template_digest_ignores_directory_and_old_digest() {
    let (row, _) = analysis_row("n", 0);
    let mut other = row.clone();
    other.template_dir = "/elsewhere".to_string();
    other.sha256_hash = Some("stale".to_string());
    assert_eq!(hash_template_row(&row), hash_template_row(&other));
}

#[test]
fn template_digest_changes_with_every_identity_field() {
    let (row, _) = analysis_row("n", 0);
    let base = hash_template_row(&row);
    let mut changed = row.clone();
    changed.repo.push('x');
    assert_ne!(hash_template_row(&changed), base);
    let mut changed = row.clone();
    changed.name.push('x');
    assert_ne!(hash_template_row(&changed), base);
    let mut changed = row.clone();
    changed.lang.push('x');
    assert_ne!(hash_template_row(&changed), base);
    let mut changed = row.clone();
    changed.branch = None;
    assert_ne!(hash_template_row(&changed), base);
    let mut changed = row.clone();
    changed.subdir = Some("s".to_string());
    assert_ne!(hash_template_row(&changed), base);
}

#[test]
fn absent_and_empty_optional_fields_hash_alike() {
    let (mut row, _) = analysis_row("n", 0);
    row.branch = None;
    row.subdir = None;
    let absent = hash_template_row(&row);
    row.branch = Some(String::new());
    row.subdir = Some(String::new());
    assert_eq!(hash_template_row(&row), absent);
}

#[test]
fn digest_is_sixty_four_lower_case_hex_digits() {
    let digest = sha256_hash_string("boilermaker");
    assert_eq!(digest.len(), 64);
    assert!(digest.chars().all(|c| c.is_ascii_digit() || ('a'..='f').contains(&c)));
    assert_ne!(digest, "boilermaker");
}

#[test]
fn language_is_the_option_then_the_default() {
    let with_default = TemplateConfig {
        project: TemplateConfigProject { default_lang: Some("rust".to_string()) },
        variables: None,
    };
    let without = TemplateConfig {
        project: TemplateConfigProject { default_lang: None },
        variables: None,
    };
    assert_eq!(get_lang(&with_default, &Some("go".to_string())).unwrap(), "go");
    assert_eq!(get_lang(&with_default, &None).unwrap(), "rust");
    assert_eq!(get_lang(&without, &Some("go".to_string())).unwrap(), "go");
    let e = get_lang(&without, &None).unwrap_err();
    assert_eq!(e.kind, ErrorKind::LanguageUnresolved);
}

#[test]
fn default_config_logs_at_info() {
    let config = make_default_config();
    assert_eq!(config.log_level.as_deref(), Some("INFO"));
    assert!(config.sources.is_none());
}

#[test]
fn planned_paths() {
    let tmp = make_tmp_dir_from_url("https://example.com/org/repo.git");
    assert!(matches!(tmp.root, PathRoot::Temp));
    assert_eq!(tmp.segments, vec!["repo".to_string()]);
    let work = make_work_dir_path("demo");
    assert!(matches!(work.root, PathRoot::Temp));
    assert_eq!(work.segments, vec!["boilermaker".to_string(), "demo".to_string()]);
    let cache = get_template_dir_path("demo");
    assert!(matches!(cache.root, PathRoot::Home));
    assert_eq!(
        cache.segments,
        vec![".boilermaker".to_string(), "templates".to_string(), "demo".to_string()]
    );
    let manifest = get_template_config_path(PathPlan::given("/x"));
    assert!(matches!(&manifest.root, PathRoot::Given(p) if p == "/x"));
    assert_eq!(manifest.segments, vec!["boilermaker.toml".to_string()]);
    let project = make_project_dir_path("p", &None);
    assert!(matches!(project.root, PathRoot::Current));
    let joined = PathPlan::at(PathRoot::Home).join("a").join_optional(&None).join_optional(&Some("b".to_string()));
    assert_eq!(joined.segments, vec!["a".to_string(), "b".to_string()]);
    let copy = joined.clone();
    assert_eq!(copy.segments, joined.segments);
}

#[test]
fn clone_context_keeps_what_it_is_given() {
    let ctx = CloneContext::new("https://example.com/r.git", None, Some("dev".to_string()));
    assert_eq!(ctx.url, "https://example.com/r.git");
    assert!(ctx.dest.is_none());
    assert_eq!(ctx.branch.as_deref(), Some("dev"));
}

#[test]
fn files_of_the_version_control_are_no_payload() {
    assert!(is_template_file("/t/src/main.rs"));
    assert!(!is_template_file("/t/.git/config"));
    assert!(!is_template_file("/t/sub/.git/objects/ab/cd"));
    assert!(!is_template_file(".git/config"));
    assert!(!is_template_file("/t/.git"));
    assert!(!is_template_file(".git"));
    assert!(is_template_file("/t/.gitignore"));
    assert!(is_template_file("/t/.github/ci.yml"));
    assert!(is_template_file("/t/docs/about.git.md"));
    assert!(is_template_file("/t/repo.git/readme"));
    assert!(is_template_file("/t/x.git"));
    assert!(is_template_file("/t/git/readme"));
    assert!(is_template_file(""));
    assert!(is_template_file("git"));
    let kept = list_template_files(&vec![
        "d/a.txt".to_string(),
        "d/.gitignore".to_string(),
        "d/.github/ci.yml".to_string(),
        "d/sub/b.txt".to_string(),
        "d/.git/config".to_string(),
    ]);
    assert_eq!(kept, vec!["d/a.txt", "d/.gitignore", "d/.github/ci.yml", "d/sub/b.txt"]);
}

#[test]
fn text_search_finds_a_needle_anywhere() {
    assert!(str_contains("haystack", "hay"));
    assert!(str_contains("haystack", "stack"));
    assert!(str_contains("haystack", "yst"));
    assert!(str_contains("haystack", ""));
    assert!(str_contains("", ""));
    assert!(!str_contains("haystack", "needle"));
    assert!(!str_contains("hay", "haystack"));
    assert!(str_contains("grüße", "üß"));
    assert_eq!(chars_of("grüße"), vec!['g', 'r', 'ü', 'ß', 'e']);
}

#[test]
fn string_map_behaves_like_a_map() {
    let mut m = StringMap::new();
    assert!(m.is_empty());
    m.insert("a".to_string(), "1".to_string());
    m.insert("b".to_string(), "2".to_string());
    m.insert("a".to_string(), "3".to_string());
    assert_eq!(m.len(), 2);
    assert!(m.contains_key("a"));
    assert!(!m.contains_key("c"));
    assert_eq!(m.get("a").map(|s| s.as_str()), Some("3"));
    assert_eq!(m.entries(), &vec![("a".to_string(), "3".to_string()), ("b".to_string(), "2".to_string())]);
    let mut other = StringMap::new();
    other.insert("b".to_string(), "20".to_string());
    other.insert("c".to_string(), "30".to_string());
    let mut merged = m.clone();
    merged.extend(&other);
    assert_eq!(merged.len(), 3);
    assert_eq!(merged.get("a").map(|s| s.as_str()), Some("3"));
    assert_eq!(merged.get("b").map(|s| s.as_str()), Some("20"));
    assert_eq!(merged.get("c").map(|s| s.as_str()), Some("30"));
    assert_eq!(m.get("b").map(|s| s.as_str()), Some("2"));
}

#[test]
fn list_is_newest_first_and_shows_timestamps() {
    let app = analysis_app(vec![analysis_row("old", 0), analysis_row("new", 86_400)]);
    let rows = list(&app, &List { public: false, private: false }).unwrap();
    let names: Vec<&str> = rows.iter().map(|r| r.name.as_str()).collect();
    assert_eq!(names, vec!["new", "old"]);
    let table = tabled_templates(&rows).unwrap();
    assert_eq!(table.len(), 2);
    assert_eq!(table[0].id, 2);
    assert_eq!(table[0].name, "new");
    assert_eq!(table[0].lang, "rust");
    assert_eq!(table[0].repo, "https://example.com/new.git");
    assert_eq!(table[0].created_at, "1970-01-02T00:00:00+00:00");
    assert_eq!(table[0].updated_at, "-");
    assert_eq!(table[1].created_at, "1970-01-01T00:00:00+00:00");
}

#[test]
fn a_timestamp_before_the_epoch_cannot_be_shown() {
    let app = analysis_app(vec![analysis_row("a", 5), analysis_row("b", -1)]);
    let rows = list(&app, &List { public: false, private: false }).unwrap();
    assert!(tabled_templates(&rows).is_none());
    assert!(tabled_templates(&vec![]).unwrap().is_empty());
}

#[test]
fn tabled_template_row() {
    let shown = TabledTemplateListResult::from(TemplateResult {
        id: 9,
        name: "n".to_string(),
        lang: "l".to_string(),
        template_dir: "/d".to_string(),
        repo: "r".to_string(),
        branch: None,
        subdir: None,
        sha256_hash: None,
        created_at: None,
        updated_at: Some(1_700_000_000),
    });
    assert_eq!(shown.id, 9);
    assert_eq!(shown.created_at, "-");
    assert_eq!(shown.updated_at, "2023-11-14T22:13:20+00:00");
}

#[test]
fn template_row_from_a_stored_template() {
    let app = analysis_app(vec![analysis_row("a", 5)]);
    let stored = app.local_db.get_template(1).unwrap().unwrap();
    let row = TemplateRow::from(stored.clone());
    assert_eq!(row.name, stored.name);
    assert_eq!(row.lang, stored.lang);
    assert_eq!(row.template_dir, stored.template_dir);
    assert_eq!(row.repo, stored.repo);
    assert_eq!(row.branch, stored.branch);
    assert_eq!(row.subdir, stored.subdir);
    assert_eq!(row.sha256_hash, stored.sha256_hash);
}

#[test]
fn remove_takes_the_directory_first_and_the_row_second() {
    let mut app = analysis_app(vec![analysis_row("a", 5), analysis_row("b", 6)]);
    let cmd = Remove { id: 1 };
    let step = begin_remove(&app, &cmd);
    match &step.action {
        RemoveAction::RemoveDir { template, dir } => {
            assert_eq!(template.name, "a");
            assert!(matches!(&dir.root, PathRoot::Given(p) if p == "/cache/a"));
        }
        other => panic!("expected a directory to remove, got {other:?}"),
    }
    assert_eq!(app.local_db.list_templates(None).unwrap().len(), 2);
    let step = remove(&mut app, &cmd, step.state, RemoveEvent::DirRemoved);
    assert!(matches!(step.state, RemoveState::Removed));
    assert!(matches!(step.action, RemoveAction::Finish { id: 1 }));
    let left = app.local_db.list_templates(None).unwrap();
    assert_eq!(left.len(), 1);
    assert_eq!(left[0].name, "b");
}

#[test]
fn remove_keeps_the_row_when_the_directory_stays() {
    let mut app = analysis_app(vec![analysis_row("a", 5)]);
    let cmd = Remove { id: 1 };
    let step = begin_remove(&app, &cmd);
    let step = remove(&mut app, &cmd, step.state, RemoveEvent::DirRemovalFailed("busy".to_string()));
    match &step.action {
        RemoveAction::Fail(e) => {
            assert_eq!((e.kind, e.phase, e.detail.as_str()), (ErrorKind::IoError, Phase::Cleanup, "busy"))
        }
        other => panic!("expected a failure, got {other:?}"),
    }
    assert_eq!(app.local_db.list_templates(None).unwrap().len(), 1);
    let missing = begin_remove(&app, &Remove { id: 7 });
    assert!(matches!(&missing.action, RemoveAction::Fail(e) if e.kind == ErrorKind::TemplateNotFound));
    let step = remove(&mut app, &cmd, RemoveState::Removed, RemoveEvent::DirRemoved);
    assert!(matches!(&step.action, RemoveAction::Fail(e) if e.kind == ErrorKind::UnexpectedEvent));
}

#[test]
fn update_clones_replaces_and_notes_the_time() {
    let mut app = analysis_app(vec![analysis_row("a", 5)]);
    let cmd = Update { id: 1 };
    let step = begin_update(&app, &cmd);
    match &step.action {
        UpdateAction::Clone(ctx) => {
            assert_eq!(ctx.url, "https://example.com/a.git");
            assert_eq!(ctx.branch.as_deref(), Some("main"));
            assert_eq!(ctx.dest.as_ref().unwrap().segments, vec!["a".to_string()]);
        }
        other => panic!("expected a clone, got {other:?}"),
    }
    let step = update(&mut app, step.state, UpdateEvent::CloneFinished, 50);
    match &step.action {
        UpdateAction::ReplaceTemplateDir { from, to } => {
            assert!(matches!(from.root, PathRoot::Temp));
            assert_eq!(from.segments, vec!["a".to_string()]);
            assert!(matches!(&to.root, PathRoot::Given(p) if p == "/cache/a"));
        }
        other => panic!("expected a replacement, got {other:?}"),
    }
    let step = update(&mut app, step.state, UpdateEvent::Replaced, 60);
    assert!(matches!(step.state, UpdateState::Updated));
    assert!(matches!(step.action, UpdateAction::Finish { id: 1 }));
    let row = app.local_db.get_template(1).unwrap().unwrap();
    assert_eq!(row.name, "a");
    assert_eq!(row.created_at, Some(5));
    assert_eq!(row.updated_at, Some(60));
}

#[test]
fn update_failures_leave_the_row_alone() {
    let mut app = analysis_app(vec![analysis_row("a", 5)]);
    let missing = begin_update(&app, &Update { id: 3 });
    assert!(matches!(&missing.action, UpdateAction::Fail(e) if e.kind == ErrorKind::TemplateNotFound));
    let step = begin_update(&app, &Update { id: 1 });
    let step = update(&mut app, step.state, UpdateEvent::CloneFailed("offline".to_string()), 9);
    assert!(matches!(&step.action, UpdateAction::Fail(e) if e.kind == ErrorKind::CloneFailure && e.detail == "offline"));
    let step = begin_update(&app, &Update { id: 1 });
    let step = update(&mut app, step.state, UpdateEvent::CloneFinished, 9);
    let step = update(&mut app, step.state, UpdateEvent::ReplaceFailed("full".to_string()), 9);
    assert!(matches!(&step.action, UpdateAction::Fail(e) if e.kind == ErrorKind::IoError && e.phase == Phase::Copy));
    assert_eq!(app.local_db.get_template(1).unwrap().unwrap().updated_at, None);
    let step = update(&mut app, UpdateState::Updated, UpdateEvent::Replaced, 9);
    assert!(matches!(&step.action, UpdateAction::Fail(e) if e.kind == ErrorKind::UnexpectedEvent));
}

#[test]
fn removal_and_update_begin_with_the_template_that_was_found() {
    let app = analysis_app(vec![analysis_row("a", 5)]);
    let found = app.local_db.get_template(1).unwrap();
    let step = start_removal(None);
    assert!(matches!(&step.action, RemoveAction::Fail(e) if e.kind == ErrorKind::TemplateNotFound && e.phase == Phase::Lookup));
    let step = start_removal(found.clone());
    assert!(matches!(&step.state, RemoveState::Found { template } if template.id == 1));
    let step = start_update(None);
    assert!(matches!(&step.action, UpdateAction::Fail(e) if e.kind == ErrorKind::TemplateNotFound && e.detail == "Cannot find template"));
    let step = start_update(found);
    assert!(matches!(&step.state, UpdateState::Found { template } if template.name == "a"));
    assert!(matches!(&step.action, UpdateAction::Clone(ctx) if ctx.url == "https://example.com/a.git"));
}
