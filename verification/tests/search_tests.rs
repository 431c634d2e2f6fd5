use boilermaker_core::commands::search::{search, search_templates, Search, SearchScope};
use boilermaker_core::config::make_default_config;
use boilermaker_core::db::local_db::{IndexedFile, TemplateDb};
use boilermaker_core::db::memory::MemoryCache;
use boilermaker_core::db::source::{PartialSourceTemplateRow, SourceMethods, SourceRow, StagedTemplate};
use boilermaker_core::db::template::{
    SearchResult, SearchResultKind, TabledSearchResult, TemplateMethods, TemplateRow,
};
use boilermaker_core::error::ErrorKind;
use boilermaker_core::state::AppState;

/// A store with one installed template whose file holds `localword`, and
/// one source (`remote`) whose template's file holds `sourceword`.
fn search_app() -> AppState<MemoryCache> {
    let mut local_db = MemoryCache::new();
    local_db.create_schema().unwrap();
    let id = local_db
        .create_template(
            TemplateRow {
                name: "installed".to_string(),
                lang: "rust".to_string(),
                template_dir: "/cache/installed".to_string(),
                repo: "https://example.com/installed.git".to_string(),
                branch: None,
                subdir: None,
                sha256_hash: None,
            },
            1,
        )
        .unwrap();
    local_db
        .index_template(
            id,
            &vec![IndexedFile {
                path: "/cache/installed/README.md".to_string(),
                content: "this holds localword and commonword".to_string(),
            }],
            1,
        )
        .unwrap();
    local_db
        .add_source(
            SourceRow {
                name: "remote".to_string(),
                backend: "git".to_string(),
                coordinate: "c".to_string(),
                description: None,
                sha256_hash: None,
            },
            vec![StagedTemplate {
                files: vec![IndexedFile {
                    path: "/tmp/listed/README.md".to_string(),
                    content: "this holds sourceword and commonword".to_string(),
                }],
                row: PartialSourceTemplateRow {
                    repo: "https://example.com/listed.git".to_string(),
                    lang: "go".to_string(),
                    name: "listed".to_string(),
                    branch: Some("main".to_string()),
                    subdir: None,
                },
            }],
            2,
        )
        .unwrap();
    AppState { log_level: 0, sys_config: make_default_config(), local_db }
}

fn search_names(results: &[SearchResult]) -> Vec<String> {
    results.iter().map(|r| r.name.clone()).collect()
}

#[test]
fn scope_comes_from_the_flags() {
    let local = Search { term: "x".to_string(), local: true, src: Some("s".to_string()) };
    assert!(matches!(SearchScope::from(&local), SearchScope::Local));
    let source = Search { term: "x".to_string(), local: false, src: Some("s".to_string()) };
    assert!(matches!(SearchScope::from(&source), SearchScope::Source(name) if name == "s"));
    let all = Search { term: "x".to_string(), local: false, src: None };
    assert!(matches!(SearchScope::from(&all), SearchScope::All));
}

#[test]
fn local_scope_sees_only_installed_templates() {
    let app = search_app();
    let found = search_templates(&app.local_db, "localword", SearchScope::Local).unwrap();
    assert_eq!(search_names(&found), vec!["installed"]);
    assert!(search_templates(&app.local_db, "sourceword", SearchScope::Local).unwrap().is_empty());
}

#[test]
fn source_scope_sees_only_the_named_source() {
    let app = search_app();
    let scope = || SearchScope::Source("remote".to_string());
    let found = search_templates(&app.local_db, "sourceword", scope()).unwrap();
    assert_eq!(search_names(&found), vec!["listed"]);
    assert_eq!(found[0].kind, SearchResultKind::Source);
    assert!(search_templates(&app.local_db, "localword", scope()).unwrap().is_empty());
    let other = SearchScope::Source("elsewhere".to_string());
    assert!(search_templates(&app.local_db, "sourceword", other).unwrap().is_empty());
}

#[test]
fn all_scope_lists_local_results_before_source_results() {
    let app = search_app();
    let found = search_templates(&app.local_db, "commonword", SearchScope::All).unwrap();
    assert_eq!(search_names(&found), vec!["installed", "listed"]);
    assert_eq!(found[0].kind, SearchResultKind::Template);
    assert_eq!(found[1].kind, SearchResultKind::Source);
    let local = search_templates(&app.local_db, "localword", SearchScope::All).unwrap();
    assert_eq!(search_names(&local), vec!["installed"]);
    let remote = search_templates(&app.local_db, "sourceword", SearchScope::All).unwrap();
    assert_eq!(search_names(&remote), vec!["listed"]);
}

#[test]
fn blank_terms_are_refused() {
    let app = search_app();
    for term in ["", "   ", "\t\n", "\u{2003}"] {
        let cmd = Search { term: term.to_string(), local: false, src: None };
        let e = search(&app, &cmd).unwrap_err();
        assert_eq!(e.kind, ErrorKind::BlankQuery);
    }
}

#[test]
fn search_trims_the_term_and_shows_rows() {
    let app = search_app();
    let cmd = Search { term: "  commonword  ".to_string(), local: false, src: None };
    let rows = search(&app, &cmd).unwrap();
    assert_eq!(rows.len(), 2);
    assert_eq!(rows[0].name, "installed");
    assert_eq!(rows[0].branch, "-");
    assert_eq!(rows[0].subdir, "-");
    assert_eq!(rows[1].name, "listed");
    assert_eq!(rows[1].lang, "go");
    assert_eq!(rows[1].branch, "main");
    assert_eq!(rows[1].subdir, "-");
    let cmd = Search { term: "nothing-like-this".to_string(), local: true, src: None };
    assert!(search(&app, &cmd).unwrap().is_empty());
}

#[test]
fn search_on_a_store_without_tables_is_a_store_failure() {
    let app = AppState {
        log_level: 0,
        sys_config: make_default_config(),
        local_db: MemoryCache::new(),
    };
    let cmd = Search { term: "x".to_string(), local: false, src: None };
    assert_eq!(search(&app, &cmd).unwrap_err().kind, ErrorKind::StoreFailure);
}

#[test]
fn tabled_search_result_shows_a_dash_for_missing_fields() {
    let shown = TabledSearchResult::from(SearchResult {
        kind: SearchResultKind::Source,
        id: 4,
        name: "n".to_string(),
        lang: "l".to_string(),
        repo: "r".to_string(),
        branch: None,
        subdir: Some("s".to_string()),
    });
    assert_eq!(shown.kind, SearchResultKind::Source);
    assert_eq!(shown.id, 4);
    assert_eq!(shown.name, "n");
    assert_eq!(shown.lang, "l");
    assert_eq!(shown.repo, "r");
    assert_eq!(shown.branch, "-");
    assert_eq!(shown.subdir, "s");
    assert_eq!(SearchResultKind::Template.as_text(), "template");
    assert_eq!(SearchResultKind::Source.as_text(), "source");
}

#[test]
fn all_scope_keeps_the_order_in_which_the_store_answers() {
    let mut app = search_app();
    for name in ["zeta", "alpha"] {
        let id = app
            .local_db
            .create_template(
                TemplateRow {
                    name: name.to_string(),
                    lang: "rust".to_string(),
                    template_dir: format!("/cache/{name}"),
                    repo: format!("https://example.com/{name}.git"),
                    branch: None,
                    subdir: None,
                    sha256_hash: None,
                },
                5,
            )
            .unwrap();
        app.local_db
            .index_template(
                id,
                &vec![IndexedFile { path: "/f".to_string(), content: "commonword".to_string() }],
                5,
            )
            .unwrap();
    }
    let local = app.local_db.search_templates("commonword").unwrap();
    let sources = app.local_db.search_sources(None, "commonword").unwrap();
    let all = search_templates(&app.local_db, "commonword", SearchScope::All).unwrap();
    assert_eq!(search_names(&local), vec!["installed", "zeta", "alpha"]);
    let mut expected = search_names(&local);
    expected.extend(search_names(&sources));
    assert_eq!(search_names(&all), expected);
    assert_eq!(all.len(), local.len() + sources.len());
}
