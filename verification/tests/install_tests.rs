use boilermaker_core::commands::install::{
    begin_install, install, plan_registration, register_template, Install, InstallAction,
    InstallEvent, InstallOutcome, InstallState, InstallStep, Registration, RegistrationPlan,
};
use boilermaker_core::config::{make_default_config, TemplateConfig, TemplateConfigProject};
use boilermaker_core::db::local_db::TemplateDb;
use boilermaker_core::db::memory::MemoryCache;
use boilermaker_core::db::template::{hash_template_row, TemplateMethods, TemplateRow};
use boilermaker_core::error::{ErrorKind, Phase};
use boilermaker_core::state::AppState;
use boilermaker_core::util::file::PathRoot;

fn install_app() -> AppState<MemoryCache> {
    AppState { log_level: 0, sys_config: make_default_config(), local_db: MemoryCache::new() }
}

fn install_cmd() -> Install {
    Install {
        template: "https://example.com/org/hello.git".to_string(),
        name: None,
        lang: None,
        branch: Some("main".to_string()),
        subdir: Some("tpl".to_string()),
    }
}

fn install_manifest(default_lang: Option<&str>) -> TemplateConfig {
    TemplateConfig {
        project: TemplateConfigProject { default_lang: default_lang.map(|l| l.to_string()) },
        variables: None,
    }
}

fn install_kind(step: &InstallStep) -> (ErrorKind, Phase, String) {
    match &step.action {
        InstallAction::Fail(e) => (e.kind, e.phase, e.detail.clone()),
        other => panic!("expected a failure, got {other:?}"),
    }
}

/// Runs an installation to its end over a directory that is or is not there.
fn install_run(app: &mut AppState<MemoryCache>, cmd: &Install, dir_present: bool) -> InstallStep {
    let step = begin_install(cmd);
    assert!(matches!(step.action, InstallAction::Clone(_)));
    let step = install(app, cmd, step.state, InstallEvent::CloneFinished, 10);
    assert!(matches!(step.action, InstallAction::ReadManifest { .. }));
    let step =
        install(app, cmd, step.state, InstallEvent::ManifestRead(install_manifest(Some("rust"))), 10);
    assert!(matches!(step.action, InstallAction::ProbeTemplateDir { .. }));
    let step = install(
        app,
        cmd,
        step.state,
        InstallEvent::TemplateDirProbed {
            path: Some("/home/u/.boilermaker/templates/hello".to_string()),
            present: dir_present,
        },
        10,
    );
    if !matches!(step.action, InstallAction::CopyTemplate { .. }) {
        return step;
    }
    let step = install(app, cmd, step.state, InstallEvent::CopyFinished, 10);
    assert!(matches!(step.action, InstallAction::ListFiles { .. }));
    let listed = vec![
        "/home/u/.boilermaker/templates/hello/rust/main.rs".to_string(),
        "/home/u/.boilermaker/templates/hello/.git/config".to_string(),
        "/home/u/.boilermaker/templates/hello/.gitignore".to_string(),
        "/home/u/.boilermaker/templates/hello/README.md".to_string(),
    ];
    let step = install(app, cmd, step.state, InstallEvent::FilesListed(listed), 10);
    let wanted = match &step.action {
        InstallAction::ReadFiles { paths } => paths.clone(),
        other => panic!("expected files to read, got {other:?}"),
    };
    assert_eq!(
        wanted,
        vec![
            "/home/u/.boilermaker/templates/hello/rust/main.rs".to_string(),
            "/home/u/.boilermaker/templates/hello/.gitignore".to_string(),
            "/home/u/.boilermaker/templates/hello/README.md".to_string(),
        ]
    );
    let contents = vec![
        "fn main() { greet(); }".to_string(),
        "target/ignored".to_string(),
        "# Hello template".to_string(),
    ];
    let step = install(app, cmd, step.state, InstallEvent::FilesRead(contents), 11);
    assert!(matches!(step.action, InstallAction::RemoveGitDir { .. }));
    install(app, cmd, step.state, InstallEvent::GitDirRemoved, 12)
}

#[test]
fn install_begins_with_a_clone_into_the_directory_named_by_the_url() {
    let step = begin_install(&install_cmd());
    assert!(matches!(step.state, InstallState::Requested));
    match step.action {
        InstallAction::Clone(ctx) => {
            assert_eq!(ctx.url, "https://example.com/org/hello.git");
            assert_eq!(ctx.branch.as_deref(), Some("main"));
            let dest = ctx.dest.unwrap();
            assert!(matches!(dest.root, PathRoot::Temp));
            assert_eq!(dest.segments, vec!["hello".to_string()]);
        }
        other => panic!("expected a clone, got {other:?}"),
    }
}

#[test]
fn install_reads_the_manifest_from_the_subdir() {
    let mut app = install_app();
    let cmd = install_cmd();
    let step = install(&mut app, &cmd, InstallState::Requested, InstallEvent::CloneFinished, 1);
    assert!(matches!(step.state, InstallState::Cloned));
    match step.action {
        InstallAction::ReadManifest { file } => {
            assert!(matches!(file.root, PathRoot::Temp));
            assert_eq!(
                file.segments,
                vec!["hello".to_string(), "tpl".to_string(), "boilermaker.toml".to_string()]
            );
        }
        other => panic!("expected a manifest to read, got {other:?}"),
    }
}

#[test]
fn install_runs_to_the_end_and_registers_once() {
    let mut app = install_app();
    let cmd = install_cmd();
    let step = install_run(&mut app, &cmd, false);
    assert!(matches!(step.state, InstallState::CleanedUp { id: 1 }));
    assert!(matches!(step.action, InstallAction::Finish(InstallOutcome::Installed { id: 1 })));

    let rows = app.local_db.list_templates(None).unwrap();
    assert_eq!(rows.len(), 1);
    assert_eq!(rows[0].name, "hello");
    assert_eq!(rows[0].lang, "rust");
    assert_eq!(rows[0].repo, "https://example.com/org/hello.git");
    assert_eq!(rows[0].template_dir, "/home/u/.boilermaker/templates/hello");
    assert_eq!(rows[0].branch.as_deref(), Some("main"));
    assert_eq!(rows[0].subdir.as_deref(), Some("tpl"));
    let expected = hash_template_row(&TemplateRow {
        name: "hello".to_string(),
        lang: "rust".to_string(),
        template_dir: String::new(),
        repo: "https://example.com/org/hello.git".to_string(),
        branch: Some("main".to_string()),
        subdir: Some("tpl".to_string()),
        sha256_hash: None,
    });
    assert_eq!(rows[0].sha256_hash.as_deref(), Some(expected.as_str()));

    let hits = app.local_db.search_templates("greet").unwrap();
    assert_eq!(hits.len(), 1);
    assert_eq!(hits[0].id, 1);
    assert!(app.local_db.search_templates("config").unwrap().is_empty());
    assert_eq!(app.local_db.search_templates("ignored").unwrap().len(), 1);
}

#[test]
fn install_indexes_what_lies_beside_the_version_control() {
    let mut app = install_app();
    app.local_db.create_schema().unwrap();
    let cmd = install_cmd();
    let id = app
        .local_db
        .create_template(
            TemplateRow {
                name: "hello".to_string(),
                lang: "rust".to_string(),
                template_dir: "/d".to_string(),
                repo: "r".to_string(),
                branch: None,
                subdir: None,
                sha256_hash: None,
            },
            1,
        )
        .unwrap();
    let state = InstallState::Copied { id, template_dir: "/d".to_string() };
    let listed = vec!["/d/.github/ci.yml".to_string(), "/d/.git/config".to_string()];
    let step = install(&mut app, &cmd, state, InstallEvent::FilesListed(listed), 2);
    assert!(matches!(&step.action, InstallAction::ReadFiles { paths } if paths == &vec!["/d/.github/ci.yml".to_string()]));
    let step = install(&mut app, &cmd, step.state, InstallEvent::FilesRead(vec!["on: push".to_string()]), 3);
    assert!(matches!(step.state, InstallState::Indexed { .. }));
    assert_eq!(app.local_db.search_templates("push").unwrap().len(), 1);
}

#[test]
fn installing_twice_with_the_directory_in_place_is_a_duplicate() {
    let mut app = install_app();
    let cmd = install_cmd();
    install_run(&mut app, &cmd, false);
    let step = install_run(&mut app, &cmd, true);
    assert!(matches!(step.state, InstallState::Duplicate));
    match step.action {
        InstallAction::Finish(outcome) => {
            let said = outcome.report().unwrap();
            assert_eq!(said.kind, ErrorKind::DuplicateTemplate);
            assert_eq!(said.detail, "hello, rust, https://example.com/org/hello.git");
            match outcome {
                InstallOutcome::Duplicate { name, lang, repo } => {
                    assert_eq!(name, "hello");
                    assert_eq!(lang, "rust");
                    assert_eq!(repo, "https://example.com/org/hello.git");
                }
                other => panic!("expected a duplicate, got {other:?}"),
            }
        }
        other => panic!("expected the end, got {other:?}"),
    }
    assert!(InstallOutcome::Installed { id: 3 }.report().is_none());
    assert_eq!(app.local_db.list_templates(None).unwrap().len(), 1);
    assert_eq!(app.local_db.search_templates("greet").unwrap().len(), 1);
}

#[test]
fn reinstall_after_the_directory_is_gone_heals_the_stale_row() {
    let mut app = install_app();
    let cmd = install_cmd();
    install_run(&mut app, &cmd, false);
    let step = install_run(&mut app, &cmd, false);
    assert!(matches!(step.action, InstallAction::Finish(InstallOutcome::Installed { id: 2 })));
    let rows = app.local_db.list_templates(None).unwrap();
    assert_eq!(rows.len(), 1);
    assert_eq!(rows[0].id, 2);
    assert_eq!(rows[0].name, "hello");
    let hits = app.local_db.search_templates("greet").unwrap();
    assert_eq!(hits.len(), 1);
    assert_eq!(hits[0].id, 2);
}

#[test]
fn install_name_override_goes_to_the_row_and_the_cache_directory() {
    let mut app = install_app();
    let mut cmd = install_cmd();
    cmd.name = Some("greeter".to_string());
    let step = install(
        &mut app,
        &cmd,
        InstallState::Cloned,
        InstallEvent::ManifestRead(install_manifest(Some("rust"))),
        1,
    );
    match step.action {
        InstallAction::ProbeTemplateDir { dir } => {
            assert!(matches!(dir.root, PathRoot::Home));
            assert_eq!(
                dir.segments,
                vec![".boilermaker".to_string(), "templates".to_string(), "greeter".to_string()]
            );
        }
        other => panic!("expected a probe, got {other:?}"),
    }
}

#[test]
fn install_language_comes_from_the_request_before_the_manifest() {
    let mut app = install_app();
    let mut cmd = install_cmd();
    cmd.lang = Some("go".to_string());
    let step = install(
        &mut app,
        &cmd,
        InstallState::Cloned,
        InstallEvent::ManifestRead(install_manifest(Some("rust"))),
        1,
    );
    assert!(matches!(&step.state, InstallState::ConfigValidated { lang } if lang == "go"));
    cmd.lang = None;
    let step = install(
        &mut app,
        &cmd,
        InstallState::Cloned,
        InstallEvent::ManifestRead(install_manifest(Some("rust"))),
        1,
    );
    assert!(matches!(&step.state, InstallState::ConfigValidated { lang } if lang == "rust"));
}

#[test]
fn install_without_any_language_fails() {
    let mut app = install_app();
    let step = install(
        &mut app,
        &install_cmd(),
        InstallState::Cloned,
        InstallEvent::ManifestRead(install_manifest(None)),
        1,
    );
    assert!(matches!(step.state, InstallState::Failed));
    let (kind, phase, _) = install_kind(&step);
    assert_eq!(kind, ErrorKind::LanguageUnresolved);
    assert_eq!(phase, Phase::Config);
}

#[test]
fn install_failures_name_their_stage() {
    let mut app = install_app();
    let cmd = install_cmd();
    let cases: Vec<(InstallState, InstallEvent, ErrorKind, Phase, &str)> = vec![
        (
            InstallState::Requested,
            InstallEvent::SetupFailed("busy".to_string()),
            ErrorKind::IoError,
            Phase::Setup,
            "busy",
        ),
        (
            InstallState::Requested,
            InstallEvent::CloneFailed("no route".to_string()),
            ErrorKind::CloneFailure,
            Phase::Clone,
            "no route",
        ),
        (
            InstallState::Cloned,
            InstallEvent::ManifestMissing,
            ErrorKind::ConfigNotFound,
            Phase::Config,
            "boilermaker.toml",
        ),
        (
            InstallState::Cloned,
            InstallEvent::ManifestUnreadable("bad toml".to_string()),
            ErrorKind::InvalidManifest,
            Phase::Config,
            "bad toml",
        ),
        (
            InstallState::ConfigValidated { lang: "rust".to_string() },
            InstallEvent::TemplateDirProbed { path: None, present: false },
            ErrorKind::IoError,
            Phase::Lookup,
            "home directory",
        ),
        (
            InstallState::Registered { id: 1, template_dir: "/d".to_string() },
            InstallEvent::CopyFailed("exists".to_string()),
            ErrorKind::IoError,
            Phase::Copy,
            "exists",
        ),
        (
            InstallState::Copied { id: 1, template_dir: "/d".to_string() },
            InstallEvent::ListFailed("denied".to_string()),
            ErrorKind::WalkError,
            Phase::Index,
            "denied",
        ),
        (
            InstallState::Listed { id: 1, template_dir: "/d".to_string(), paths: vec![] },
            InstallEvent::ReadFailed("not utf-8".to_string()),
            ErrorKind::IoError,
            Phase::Index,
            "not utf-8",
        ),
        (
            InstallState::Indexed { id: 1, template_dir: "/d".to_string() },
            InstallEvent::CleanupFailed("locked".to_string()),
            ErrorKind::IoError,
            Phase::Cleanup,
            "locked",
        ),
    ];
    for (state, event, kind, phase, detail) in cases {
        let step = install(&mut app, &cmd, state, event, 1);
        assert!(matches!(step.state, InstallState::Failed));
        assert_eq!(install_kind(&step), (kind, phase, detail.to_string()));
    }
    assert!(!app.local_db.template_table_exists().unwrap());
}

#[test]
fn install_refuses_events_out_of_turn() {
    let mut app = install_app();
    let cmd = install_cmd();
    let step = install(&mut app, &cmd, InstallState::Requested, InstallEvent::CopyFinished, 1);
    assert_eq!(install_kind(&step).0, ErrorKind::UnexpectedEvent);
    let step = install(&mut app, &cmd, InstallState::CleanedUp { id: 1 }, InstallEvent::GitDirRemoved, 1);
    assert_eq!(install_kind(&step).0, ErrorKind::UnexpectedEvent);
    let step = install(
        &mut app,
        &cmd,
        InstallState::Listed { id: 1, template_dir: "/d".to_string(), paths: vec!["a".to_string()] },
        InstallEvent::FilesRead(vec![]),
        1,
    );
    assert_eq!(install_kind(&step).0, ErrorKind::UnexpectedEvent);
}

#[test]
fn install_index_failure_is_a_store_failure() {
    let mut app = install_app();
    app.local_db.create_schema().unwrap();
    let step = install(
        &mut app,
        &install_cmd(),
        InstallState::Listed { id: 7, template_dir: "/d".to_string(), paths: vec!["a".to_string()] },
        InstallEvent::FilesRead(vec!["text".to_string()]),
        1,
    );
    let (kind, phase, _) = install_kind(&step);
    assert_eq!(kind, ErrorKind::StoreFailure);
    assert_eq!(phase, Phase::Index);
}

#[test]
fn registration_plan_follows_the_found_row_and_the_directory() {
    let mut cache = MemoryCache::new();
    cache.create_schema().unwrap();
    let row = TemplateRow {
        name: "a".to_string(),
        lang: "rust".to_string(),
        template_dir: "/d".to_string(),
        repo: "r".to_string(),
        branch: None,
        subdir: None,
        sha256_hash: None,
    };
    let id = cache.create_template(row.clone(), 1).unwrap();
    let found = cache.get_template(id).unwrap();
    assert_eq!(plan_registration(&None, true), RegistrationPlan::Create);
    assert_eq!(plan_registration(&None, false), RegistrationPlan::Create);
    assert_eq!(plan_registration(&found, true), RegistrationPlan::Duplicate);
    assert_eq!(plan_registration(&found, false), RegistrationPlan::Heal(id));
}

#[test]
fn register_template_creates_the_tables_when_they_are_missing() {
    let mut cache = MemoryCache::new();
    let row = TemplateRow {
        name: "a".to_string(),
        lang: "rust".to_string(),
        template_dir: "/d".to_string(),
        repo: "r".to_string(),
        branch: None,
        subdir: None,
        sha256_hash: None,
    };
    let outcome = register_template(&mut cache, row.clone(), true, 4).unwrap();
    assert!(matches!(outcome, Registration::Registered { id: 1, healed: None }));
    assert!(cache.template_table_exists().unwrap());
    let outcome = register_template(&mut cache, row.clone(), true, 5).unwrap();
    assert!(matches!(outcome, Registration::Duplicate(ref t) if t.id == 1));
    let outcome = register_template(&mut cache, row, false, 6).unwrap();
    assert!(matches!(outcome, Registration::Registered { id: 2, healed: Some(1) }));
    assert_eq!(cache.list_templates(None).unwrap().len(), 1);
}
