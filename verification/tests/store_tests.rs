use boilermaker_core::db::local_db::{IndexedFile, StoreError, TemplateDb};
use boilermaker_core::db::memory::MemoryCache;
use boilermaker_core::db::source::{
    hash_source_template_row, PartialSourceTemplateRow, SourceMethods, SourceRow, SourceTemplateRow,
    StagedTemplate,
};
use boilermaker_core::db::template::{
    hash_template_row, SearchResultKind, TemplateFindParams, TemplateMethods, TemplateRow,
};

fn store_row(name: &str, lang: &str, repo: &str) -> TemplateRow {
    TemplateRow {
        name: name.to_string(),
        lang: lang.to_string(),
        template_dir: format!("/cache/{name}"),
        repo: repo.to_string(),
        branch: None,
        subdir: None,
        sha256_hash: None,
    }
    .set_hash_string()
}

fn store_ready() -> MemoryCache {
    let mut cache = MemoryCache::new();
    cache.create_schema().unwrap();
    cache
}

fn store_file(path: &str, content: &str) -> IndexedFile {
    IndexedFile { path: path.to_string(), content: content.to_string() }
}

fn store_source(name: &str) -> SourceRow {
    SourceRow {
        name: name.to_string(),
        backend: "git".to_string(),
        coordinate: format!("https://example.com/{name}.toml"),
        description: None,
        sha256_hash: None,
    }
    .set_hash_string()
}

fn store_staged(name: &str, files: Vec<IndexedFile>) -> StagedTemplate {
    StagedTemplate {
        files,
        row: PartialSourceTemplateRow {
            repo: format!("https://example.com/{name}.git"),
            lang: "rust".to_string(),
            name: name.to_string(),
            branch: None,
            subdir: None,
        },
    }
}

#[test]
fn new_store_has_no_tables() {
    let mut cache = MemoryCache::new();
    assert!(!cache.template_table_exists().unwrap());
    assert!(matches!(cache.list_templates(None), Err(StoreError::SchemaMissing)));
    assert!(matches!(
        cache.create_template(store_row("a", "rust", "r"), 1),
        Err(StoreError::SchemaMissing)
    ));
    assert!(matches!(cache.check_unique(&store_row("a", "rust", "r")), Err(StoreError::SchemaMissing)));
    assert!(matches!(cache.search_templates("x"), Err(StoreError::SchemaMissing)));
    assert!(matches!(cache.list_sources(), Err(StoreError::SchemaMissing)));
}

#[test]
fn create_schema_is_idempotent() {
    let mut cache = store_ready();
    let id = cache.create_template(store_row("a", "rust", "r"), 1).unwrap();
    cache.create_schema().unwrap();
    assert!(cache.template_table_exists().unwrap());
    assert_eq!(cache.get_template(id).unwrap().unwrap().name, "a");
}

#[test]
fn ids_rise_from_one_and_are_never_reused() {
    let mut cache = store_ready();
    assert_eq!(cache.create_template(store_row("a", "rust", "r"), 10).unwrap(), 1);
    assert_eq!(cache.create_template(store_row("b", "rust", "r"), 11).unwrap(), 2);
    assert_eq!(cache.delete_template(2).unwrap(), 2);
    assert_eq!(cache.create_template(store_row("c", "rust", "r"), 12).unwrap(), 3);
    assert!(cache.get_template(2).unwrap().is_none());
}

#[test]
fn created_template_keeps_its_fields() {
    let mut cache = store_ready();
    let row = TemplateRow {
        name: "web".to_string(),
        lang: "go".to_string(),
        template_dir: "/cache/web".to_string(),
        repo: "https://example.com/web.git".to_string(),
        branch: Some("main".to_string()),
        subdir: Some("tpl".to_string()),
        sha256_hash: None,
    }
    .set_hash_string();
    let hash = row.sha256_hash.clone();
    let id = cache.create_template(row, 77).unwrap();
    let got = cache.get_template(id).unwrap().unwrap();
    assert_eq!(got.id, id);
    assert_eq!(got.name, "web");
    assert_eq!(got.lang, "go");
    assert_eq!(got.template_dir, "/cache/web");
    assert_eq!(got.repo, "https://example.com/web.git");
    assert_eq!(got.branch.as_deref(), Some("main"));
    assert_eq!(got.subdir.as_deref(), Some("tpl"));
    assert_eq!(got.sha256_hash, hash);
    assert_eq!(got.created_at, Some(77));
    assert_eq!(got.updated_at, None);
}

#[test]
fn check_unique_looks_at_name_lang_and_repo() {
    let mut cache = store_ready();
    cache.create_template(store_row("a", "rust", "r1"), 1).unwrap();
    assert!(cache.check_unique(&store_row("a", "rust", "r1")).unwrap().is_some());
    assert!(cache.check_unique(&store_row("a", "go", "r1")).unwrap().is_none());
    assert!(cache.check_unique(&store_row("a", "rust", "r2")).unwrap().is_none());
    assert!(cache.check_unique(&store_row("b", "rust", "r1")).unwrap().is_none());
    let mut other_dir = store_row("a", "rust", "r1");
    other_dir.template_dir = "/elsewhere".to_string();
    other_dir.branch = Some("dev".to_string());
    assert_eq!(cache.check_unique(&other_dir).unwrap().unwrap().id, 1);
}

#[test]
fn delete_of_a_missing_id_changes_nothing() {
    let mut cache = store_ready();
    cache.create_template(store_row("a", "rust", "r"), 1).unwrap();
    assert_eq!(cache.delete_template(42).unwrap(), 42);
    assert_eq!(cache.list_templates(None).unwrap().len(), 1);
}

#[test]
fn update_replaces_the_row_and_keeps_the_creation_time() {
    let mut cache = store_ready();
    let id = cache.create_template(store_row("a", "rust", "r"), 5).unwrap();
    let other = cache.create_template(store_row("b", "rust", "r"), 6).unwrap();
    assert_eq!(cache.update_template(id, store_row("a2", "go", "r2"), 9).unwrap(), id);
    let got = cache.get_template(id).unwrap().unwrap();
    assert_eq!(got.name, "a2");
    assert_eq!(got.lang, "go");
    assert_eq!(got.repo, "r2");
    assert_eq!(got.created_at, Some(5));
    assert_eq!(got.updated_at, Some(9));
    let untouched = cache.get_template(other).unwrap().unwrap();
    assert_eq!(untouched.name, "b");
    assert_eq!(untouched.updated_at, None);
}

#[test]
fn find_templates_ands_its_filters_and_orders_by_name() {
    let mut cache = store_ready();
    cache.create_template(store_row("zeta", "rust", "r1"), 1).unwrap();
    cache.create_template(store_row("alpha", "rust", "r2"), 2).unwrap();
    cache.create_template(store_row("alpha", "go", "r2"), 3).unwrap();
    cache.create_template(store_row("Beta", "rust", "r3"), 4).unwrap();

    let all = cache.find_templates(TemplateFindParams::default()).unwrap();
    let names: Vec<&str> = all.iter().map(|t| t.name.as_str()).collect();
    assert_eq!(names, vec!["Beta", "alpha", "alpha", "zeta"]);
    assert_eq!(all[1].id, 2);
    assert_eq!(all[2].id, 3);

    let mut by_name = TemplateFindParams::default();
    by_name.name = Some("alpha".to_string());
    assert_eq!(cache.find_templates(by_name).unwrap().len(), 2);

    let mut by_both = TemplateFindParams::default();
    by_both.name = Some("alpha".to_string());
    by_both.lang = Some("go".to_string());
    let found = cache.find_templates(by_both).unwrap();
    assert_eq!(found.len(), 1);
    assert_eq!(found[0].id, 3);

    let mut by_ids = TemplateFindParams::default();
    by_ids.ids = Some(vec![1, 4, 99]);
    let found = cache.find_templates(by_ids).unwrap();
    let ids: Vec<i64> = found.iter().map(|t| t.id).collect();
    assert_eq!(ids, vec![4, 1]);

    let mut no_ids = TemplateFindParams::default();
    no_ids.ids = Some(vec![]);
    assert_eq!(cache.find_templates(no_ids).unwrap().len(), 4);

    let mut by_branch = TemplateFindParams::default();
    by_branch.branch = Some("main".to_string());
    assert!(cache.find_templates(by_branch).unwrap().is_empty());

    let mut by_hash = TemplateFindParams::default();
    by_hash.sha256_hash = Some("not a digest".to_string());
    assert_eq!(cache.find_templates(by_hash).unwrap().len(), 4);
}

#[test]
fn list_templates_is_newest_first() {
    let mut cache = store_ready();
    cache.create_template(store_row("old", "rust", "r"), 100).unwrap();
    cache.create_template(store_row("new", "rust", "r"), 300).unwrap();
    cache.create_template(store_row("mid", "rust", "r"), 200).unwrap();
    cache.create_template(store_row("mid2", "rust", "r"), 200).unwrap();
    let listed = cache.list_templates(None).unwrap();
    let names: Vec<&str> = listed.iter().map(|t| t.name.as_str()).collect();
    assert_eq!(names, vec!["new", "mid", "mid2", "old"]);
}

#[test]
fn index_template_needs_the_template() {
    let mut cache = store_ready();
    let files = vec![store_file("/cache/a/main.rs", "fn main() {}")];
    assert!(matches!(cache.index_template(1, &files, 1), Err(StoreError::NotFound)));
    assert!(cache.search_templates("main").unwrap().is_empty());
}

#[test]
fn search_reports_each_template_once() {
    let mut cache = store_ready();
    let a = cache.create_template(store_row("a", "rust", "r"), 1).unwrap();
    let b = cache.create_template(store_row("b", "rust", "r"), 2).unwrap();
    cache
        .index_template(
            a,
            &vec![store_file("/a/1", "needle here"), store_file("/a/2", "another needle")],
            3,
        )
        .unwrap();
    cache.index_template(b, &vec![store_file("/b/1", "nothing")], 3).unwrap();
    let found = cache.search_templates("  needle ").unwrap();
    assert_eq!(found.len(), 1);
    assert_eq!(found[0].id, a);
    assert_eq!(found[0].kind, SearchResultKind::Template);
    assert_eq!(found[0].name, "a");
    assert_eq!(found[0].lang, "rust");
    assert_eq!(found[0].repo, "r");
    assert!(cache.search_templates("absent").unwrap().is_empty());
    assert_eq!(cache.search_templates("n").unwrap().len(), 2);
}

#[test]
fn reindexing_appends_and_search_still_reports_once() {
    let mut cache = store_ready();
    let a = cache.create_template(store_row("a", "rust", "r"), 1).unwrap();
    let files = vec![store_file("/a/1", "needle")];
    cache.index_template(a, &files, 2).unwrap();
    cache.index_template(a, &files, 3).unwrap();
    assert_eq!(cache.search_templates("needle").unwrap().len(), 1);
}

#[test]
fn content_of_a_deleted_template_is_not_reported() {
    let mut cache = store_ready();
    let a = cache.create_template(store_row("a", "rust", "r"), 1).unwrap();
    cache.index_template(a, &vec![store_file("/a/1", "needle")], 2).unwrap();
    cache.delete_template(a).unwrap();
    assert!(cache.search_templates("needle").unwrap().is_empty());
    let again = cache.create_template(store_row("a", "rust", "r"), 3).unwrap();
    assert_ne!(again, a);
    assert!(cache.search_templates("needle").unwrap().is_empty());
}

#[test]
fn add_source_stores_source_templates_and_content() {
    let mut cache = store_ready();
    let staged = vec![
        store_staged("one", vec![store_file("/one/a", "apple"), store_file("/one/b", "pear")]),
        store_staged("two", vec![]),
        store_staged("three", vec![store_file("/three/a", "apple pie")]),
    ];
    let added = cache.add_source(store_source("fruits"), staged, 5).unwrap();
    assert_eq!(added.source_id, 1);
    assert_eq!(added.source_template_ids, vec![1, 2, 3]);

    let sources = cache.list_sources().unwrap();
    assert_eq!(sources.len(), 1);
    assert_eq!(sources[0].name, "fruits");
    assert_eq!(sources[0].backend, "git");
    assert!(sources[0].sha256_hash.is_some());

    let hits = cache.search_sources(None, "apple").unwrap();
    let ids: Vec<i64> = hits.iter().map(|h| h.id).collect();
    assert_eq!(ids, vec![1, 3]);
    assert!(hits.iter().all(|h| h.kind == SearchResultKind::Source));
    assert_eq!(hits[0].name, "one");
    assert_eq!(hits[0].repo, "https://example.com/one.git");
    assert!(cache.search_templates("apple").unwrap().is_empty());
}

#[test]
fn search_sources_filters_by_source_name() {
    let mut cache = store_ready();
    cache
        .add_source(
            store_source("first"),
            vec![store_staged("one", vec![store_file("/one/a", "shared word")])],
            1,
        )
        .unwrap();
    cache
        .add_source(
            store_source("second"),
            vec![store_staged("two", vec![store_file("/two/a", "shared word")])],
            2,
        )
        .unwrap();
    assert_eq!(cache.search_sources(None, "shared").unwrap().len(), 2);
    let first = cache.search_sources(Some("first".to_string()), "shared").unwrap();
    assert_eq!(first.len(), 1);
    assert_eq!(first[0].name, "one");
    let second = cache.search_sources(Some("second".to_string()), "shared").unwrap();
    assert_eq!(second.len(), 1);
    assert_eq!(second[0].name, "two");
    assert!(cache.search_sources(Some("third".to_string()), "shared").unwrap().is_empty());
}

#[test]
fn source_template_digest_matches_template_digest() {
    let template = TemplateRow {
        name: "n".to_string(),
        lang: "l".to_string(),
        template_dir: "/somewhere".to_string(),
        repo: "r".to_string(),
        branch: Some("b".to_string()),
        subdir: None,
        sha256_hash: None,
    };
    let listed = SourceTemplateRow {
        source_id: 9,
        repo: "r".to_string(),
        lang: "l".to_string(),
        name: "n".to_string(),
        branch: Some("b".to_string()),
        subdir: None,
        sha256_hash: None,
    };
    assert_eq!(hash_template_row(&template), hash_source_template_row(&listed));
}

#[test]
fn list_sources_is_newest_first() {
    let mut cache = store_ready();
    cache.add_source(store_source("old"), vec![], 10).unwrap();
    cache.add_source(store_source("new"), vec![], 30).unwrap();
    cache.add_source(store_source("mid"), vec![], 20).unwrap();
    cache.add_source(store_source("mid2"), vec![], 20).unwrap();
    let names: Vec<String> = cache.list_sources().unwrap().into_iter().map(|s| s.name).collect();
    assert_eq!(names, vec!["new", "mid", "mid2", "old"]);
}

#[test]
fn store_errors_say_what_went_wrong() {
    assert_eq!(StoreError::SchemaMissing.message(), "the tables of the store are missing");
    assert_eq!(StoreError::NotFound.message(), "no row has this id");
    assert_eq!(StoreError::Exhausted.message(), "the store has no id left");
    assert_eq!(StoreError::Backend("disk full".to_string()).message(), "disk full");
}
