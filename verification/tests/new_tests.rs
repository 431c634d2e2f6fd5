use boilermaker_core::commands::new::{
    begin_new, choose_template, extend_template_context, join_names, new, split_variable,
    unknown_variable_error, vec_to_hashmap, write_rendered, ListedFile, New, NewAction, NewEvent,
    NewState, NewStep,
};
use boilermaker_core::config::{
    make_default_config, TemplateConfig, TemplateConfigProject, TemplateConfigVariableMap,
    VariableValue,
};
use boilermaker_core::db::local_db::TemplateDb;
use boilermaker_core::db::memory::MemoryCache;
use boilermaker_core::db::template::{TemplateMethods, TemplateRow};
use boilermaker_core::error::{ErrorKind, Phase, PipelineError};
use boilermaker_core::state::AppState;
use boilermaker_core::template::static_analysis::WalkEntry;
use boilermaker_core::template::{create_project_dir, render_template_files};
use boilermaker_core::util::file::PathRoot;
use boilermaker_core::util::map::StringMap;

fn new_app(langs: &[&str]) -> AppState<MemoryCache> {
    let mut local_db = MemoryCache::new();
    local_db.create_schema().unwrap();
    for lang in langs {
        local_db
            .create_template(
                TemplateRow {
                    name: "hello".to_string(),
                    lang: lang.to_string(),
                    template_dir: "/cache/hello".to_string(),
                    repo: "https://example.com/hello.git".to_string(),
                    branch: None,
                    subdir: None,
                    sha256_hash: None,
                },
                1,
            )
            .unwrap();
    }
    AppState { log_level: 0, sys_config: make_default_config(), local_db }
}

fn new_cmd(vars: &[&str]) -> New {
    New {
        name: "hello".to_string(),
        lang: None,
        rename: None,
        dir: Some("/work".to_string()),
        output_path: None,
        overwrite: false,
        vars: vars.iter().map(|v| v.to_string()).collect(),
    }
}

fn new_manifest(variables: &[(&str, &str)]) -> TemplateConfig {
    let values = variables
        .iter()
        .map(|(k, v)| (k.to_string(), VariableValue::Text(v.to_string())))
        .collect();
    TemplateConfig {
        project: TemplateConfigProject { default_lang: Some("rust".to_string()) },
        variables: Some(TemplateConfigVariableMap::from_values(values)),
    }
}

fn new_failure(step: &NewStep) -> (ErrorKind, Phase, String) {
    match &step.action {
        NewAction::Fail(e) => (e.kind, e.phase, e.detail.clone()),
        other => panic!("expected a failure, got {other:?}"),
    }
}

fn new_map(pairs: &[(&str, &str)]) -> StringMap {
    let mut m = StringMap::new();
    for (k, v) in pairs {
        m.insert(k.to_string(), v.to_string());
    }
    m
}

#[test]
fn variables_split_at_the_first_equals_sign() {
    assert_eq!(split_variable("a=b"), Some(("a".to_string(), "b".to_string())));
    assert_eq!(split_variable("a=b=c"), Some(("a".to_string(), "b=c".to_string())));
    assert_eq!(split_variable("=b"), Some(("".to_string(), "b".to_string())));
    assert_eq!(split_variable("a="), Some(("a".to_string(), "".to_string())));
    assert_eq!(split_variable("ab"), None);
    assert_eq!(split_variable(""), None);
}

#[test]
fn variables_become_a_map_and_later_ones_win() {
    let vars = vec!["foo=bar".to_string(), "baz=quux".to_string(), "foo=last".to_string()];
    let m = vec_to_hashmap(&vars).unwrap();
    assert_eq!(m.len(), 2);
    assert_eq!(m.get("foo").map(|s| s.as_str()), Some("last"));
    assert_eq!(m.get("baz").map(|s| s.as_str()), Some("quux"));
    assert!(vec_to_hashmap(&vec![]).unwrap().is_empty());
}

#[test]
fn a_variable_without_equals_sign_is_refused_by_name() {
    let vars = vec!["ok=1".to_string(), "broken".to_string(), "alsobroken".to_string()];
    let e = vec_to_hashmap(&vars).unwrap_err();
    assert_eq!(e.kind, ErrorKind::InvalidVariable);
    assert_eq!(e.phase, Phase::Variables);
    assert_eq!(e.detail, "broken");
}

#[test]
fn unknown_variable_names_the_recognized_keys() {
    let mut context = new_map(&[("project_name", "default")]);
    let allowed = vec!["project_name".to_string()];
    let e = extend_template_context(&mut context, &allowed, &new_map(&[("unknown", "1")]))
        .unwrap_err();
    assert_eq!(e.unknown, vec!["unknown".to_string()]);
    assert_eq!(e.known, vec!["project_name".to_string()]);
    assert_eq!(context.get("project_name").map(|s| s.as_str()), Some("default"));
    assert_eq!(context.len(), 1);
    let error = unknown_variable_error(&e);
    assert_eq!(error.kind, ErrorKind::UnknownVariable);
    assert_eq!(
        error.detail,
        "Some variables aren't available in template: unknown. Known variables: project_name"
    );
}

#[test]
fn known_variables_override_and_extend_the_context() {
    let mut context = new_map(&[("project_name", "default"), ("author", "me")]);
    let allowed = vec!["project_name".to_string(), "license".to_string(), "author".to_string()];
    let user = new_map(&[("project_name", "demo"), ("license", "MIT")]);
    extend_template_context(&mut context, &allowed, &user).unwrap();
    assert_eq!(context.len(), 3);
    assert_eq!(context.get("project_name").map(|s| s.as_str()), Some("demo"));
    assert_eq!(context.get("author").map(|s| s.as_str()), Some("me"));
    assert_eq!(context.get("license").map(|s| s.as_str()), Some("MIT"));
}

#[test]
fn every_unknown_variable_is_listed() {
    let mut context = StringMap::new();
    let allowed = vec!["a".to_string()];
    let user = new_map(&[("x", "1"), ("a", "2"), ("y", "3")]);
    let e = extend_template_context(&mut context, &allowed, &user).unwrap_err();
    assert_eq!(e.unknown, vec!["x".to_string(), "y".to_string()]);
    assert!(context.is_empty());
}

#[test]
fn names_are_joined_by_comma_and_blank() {
    assert_eq!(join_names(&vec![]), "");
    assert_eq!(join_names(&vec!["a".to_string()]), "a");
    assert_eq!(join_names(&vec!["a".to_string(), "b".to_string(), "c".to_string()]), "a, b, c");
}

#[test]
fn rendering_substitutes_the_variable() {
    let context = new_map(&[("project_name", "demo")]);
    let out = render_template_files(&vec![], "main.rs", "name = \"{{ project_name }}\" // {{project_name}}", &context)
        .unwrap();
    assert_eq!(out, "name = \"demo\" // demo");
}

#[test]
fn rendering_fails_on_a_broken_template() {
    let e = render_template_files(&vec![], "broken.txt", "{% if %}", &StringMap::new()).unwrap_err();
    assert_eq!(e.kind, ErrorKind::RenderFailure);
    assert_eq!(e.phase, Phase::Render);
    assert_eq!(e.detail, "broken.txt");
}

#[test]
fn rendering_leaves_text_without_placeholders_alone() {
    let out = render_template_files(&vec![], "a.txt", "plain text", &StringMap::new()).unwrap();
    assert_eq!(out, "plain text");
}

#[test]
fn project_directory_is_created_replaced_or_refused() {
    let made = create_project_dir("p", &Some("/work".to_string()), false, false).unwrap();
    assert!(!made.replace);
    assert!(matches!(&made.path.root, PathRoot::Given(d) if d == "/work"));
    assert_eq!(made.path.segments, vec!["p".to_string()]);
    let made = create_project_dir("p", &None, true, false).unwrap();
    assert!(!made.replace);
    assert!(matches!(made.path.root, PathRoot::Current));
    let made = create_project_dir("p", &None, true, true).unwrap();
    assert!(made.replace);
    let e = create_project_dir("p", &None, false, true).unwrap_err();
    assert_eq!((e.kind, e.phase), (ErrorKind::PathConflict, Phase::Output));
}

#[test]
fn rendering_knows_the_files_that_were_rendered_before() {
    let earlier = vec![("header.txt".to_string(), "Hello {{ who }}!".to_string())];
    let context = new_map(&[("who", "world")]);
    let source = "{% include \"header.txt\" %} Bye.";
    let out = render_template_files(&earlier, "page.txt", source, &context).unwrap();
    assert_eq!(out, "Hello world! Bye.");
    let e = render_template_files(&vec![], "page.txt", source, &context).unwrap_err();
    assert_eq!(e.kind, ErrorKind::RenderFailure);
}

#[test]
fn new_needs_exactly_one_template() {
    let step = begin_new(&new_app(&[]), &new_cmd(&[]));
    assert_eq!(
        new_failure(&step),
        (ErrorKind::TemplateNotFound, Phase::Lookup, "hello".to_string())
    );
    let step = begin_new(&new_app(&["rust", "go"]), &new_cmd(&[]));
    assert_eq!(new_failure(&step).0, ErrorKind::AmbiguousTemplate);
    let mut cmd = new_cmd(&[]);
    cmd.lang = Some("go".to_string());
    let step = begin_new(&new_app(&["rust", "go"]), &cmd);
    assert!(matches!(&step.state, NewState::Found { template } if template.lang == "go"));
    match step.action {
        NewAction::ReadManifest { file } => {
            assert!(matches!(&file.root, PathRoot::Given(p) if p == "/cache/hello"));
            assert_eq!(file.segments, vec!["boilermaker.toml".to_string()]);
        }
        other => panic!("expected a manifest to read, got {other:?}"),
    }
    let store_less = AppState {
        log_level: 0,
        sys_config: make_default_config(),
        local_db: MemoryCache::new(),
    };
    assert_eq!(new_failure(&begin_new(&store_less, &new_cmd(&[]))).0, ErrorKind::StoreFailure);
}

#[test]
fn new_with_an_unknown_variable_fails_and_names_the_known_ones() {
    let app = new_app(&["rust"]);
    let cmd = new_cmd(&["unknown=1"]);
    let step = begin_new(&app, &cmd);
    let step = new(&cmd, step.state, NewEvent::ManifestRead(new_manifest(&[])));
    match &step.action {
        NewAction::ScanVariables { dir } => {
            assert!(matches!(&dir.root, PathRoot::Given(p) if p == "/cache/hello"));
            assert!(dir.segments.is_empty());
        }
        other => panic!("expected a scan, got {other:?}"),
    }
    let entries = vec![
        WalkEntry::Directory,
        WalkEntry::File("fn main() { println!(\"{{ project_name }}\"); }".to_string()),
    ];
    let step = new(&cmd, step.state, NewEvent::ScanFinished(entries));
    assert!(matches!(step.state, NewState::Failed));
    assert_eq!(
        new_failure(&step),
        (
            ErrorKind::UnknownVariable,
            Phase::Variables,
            "Some variables aren't available in template: unknown. Known variables: project_name"
                .to_string()
        )
    );
}

#[test]
fn new_renders_every_file_and_moves_the_project_into_place() {
    let app = new_app(&["rust"]);
    let mut cmd = new_cmd(&["project_name=demo"]);
    cmd.rename = Some("renamed".to_string());
    let step = begin_new(&app, &cmd);
    let step =
        new(&cmd, step.state, NewEvent::ManifestRead(new_manifest(&[("project_name", "x"), ("author", "me")])));
    let entries = vec![WalkEntry::File("{{ project_name }} by {{author}}".to_string())];
    let step = new(&cmd, step.state, NewEvent::ScanFinished(entries));
    match &step.action {
        NewAction::PrepareWorkDir { work_dir, from } => {
            assert!(matches!(work_dir.root, PathRoot::Temp));
            assert_eq!(work_dir.segments, vec!["boilermaker".to_string(), "hello".to_string()]);
            assert!(matches!(&from.root, PathRoot::Given(p) if p == "/cache/hello"));
            assert_eq!(from.segments, vec!["rust".to_string()]);
        }
        other => panic!("expected the work dir, got {other:?}"),
    }
    let step = new(&cmd, step.state, NewEvent::WorkDirReady);
    assert!(matches!(step.action, NewAction::ListFiles { .. }));
    let files = vec![
        ListedFile { path: "/tmp/boilermaker/hello/a.txt".to_string(), name: "a.txt".to_string() },
        ListedFile { path: "/tmp/boilermaker/hello/src/b.txt".to_string(), name: "b.txt".to_string() },
    ];
    let step = new(&cmd, step.state, NewEvent::FilesListed(files));
    assert!(matches!(&step.action, NewAction::ReadFile { path } if path == "/tmp/boilermaker/hello/a.txt"));
    let step = new(&cmd, step.state, NewEvent::FileRead("{{ project_name }} by {{ author }}".to_string()));
    match &step.action {
        NewAction::WriteFile { path, content } => {
            assert_eq!(path, "/tmp/boilermaker/hello/a.txt");
            assert_eq!(content, "demo by me");
        }
        other => panic!("expected a write, got {other:?}"),
    }
    let step = new(&cmd, step.state, NewEvent::FileWritten);
    assert!(matches!(&step.action, NewAction::ReadFile { path } if path == "/tmp/boilermaker/hello/src/b.txt"));
    let step = new(&cmd, step.state, NewEvent::FileRead("no placeholder".to_string()));
    assert!(matches!(&step.action, NewAction::WriteFile { content, .. } if content == "no placeholder"));
    let step = new(&cmd, step.state, NewEvent::FileWritten);
    match &step.action {
        NewAction::ProbeProjectDir { dir } => {
            assert!(matches!(&dir.root, PathRoot::Given(p) if p == "/work"));
            assert_eq!(dir.segments, vec!["renamed".to_string()]);
        }
        other => panic!("expected a probe, got {other:?}"),
    }
    let step = new(&cmd, step.state, NewEvent::ProjectDirProbed { present: false });
    assert!(matches!(&step.action, NewAction::CreateProjectDir { replace: false, .. }));
    let step = new(&cmd, step.state, NewEvent::ProjectDirReady);
    match &step.action {
        NewAction::MoveProject { from, to } => {
            assert_eq!(from.segments, vec!["boilermaker".to_string(), "hello".to_string()]);
            assert_eq!(to.segments, vec!["renamed".to_string()]);
        }
        other => panic!("expected a move, got {other:?}"),
    }
    let step = new(&cmd, step.state, NewEvent::Moved);
    assert!(matches!(step.state, NewState::Created));
    assert!(matches!(step.action, NewAction::Finish { .. }));
}

#[test]
fn new_without_variables_skips_the_scan_and_uses_the_defaults() {
    let app = new_app(&["rust"]);
    let cmd = new_cmd(&[]);
    let step = begin_new(&app, &cmd);
    let step = new(&cmd, step.state, NewEvent::ManifestRead(new_manifest(&[("greeting", "hi")])));
    assert!(matches!(&step.state, NewState::Prepared { context, .. } if context.get("greeting").map(|s| s.as_str()) == Some("hi")));
    let step = new(&cmd, step.state, NewEvent::WorkDirReady);
    let step = new(&cmd, step.state, NewEvent::FilesListed(vec![]));
    match &step.action {
        NewAction::ProbeProjectDir { dir } => assert_eq!(dir.segments, vec!["hello".to_string()]),
        other => panic!("expected a probe, got {other:?}"),
    }
}

#[test]
fn new_refuses_an_existing_directory_unless_told_to_overwrite() {
    let cmd = new_cmd(&[]);
    let state = || NewState::Rendered { template_name: "hello".to_string() };
    let step = new(&cmd, state(), NewEvent::ProjectDirProbed { present: true });
    let (kind, phase, _) = new_failure(&step);
    assert_eq!((kind, phase), (ErrorKind::PathConflict, Phase::Output));
    let mut forced = new_cmd(&[]);
    forced.overwrite = true;
    let step = new(&forced, state(), NewEvent::ProjectDirProbed { present: true });
    assert!(matches!(&step.action, NewAction::CreateProjectDir { replace: true, .. }));
    let step = new(&forced, state(), NewEvent::ProjectDirProbed { present: false });
    assert!(matches!(&step.action, NewAction::CreateProjectDir { replace: false, .. }));
}

#[test]
fn new_in_the_current_directory_when_none_is_given() {
    let mut cmd = new_cmd(&[]);
    cmd.dir = None;
    let step = new(&cmd, NewState::Moving, NewEvent::Moved);
    match &step.action {
        NewAction::Finish { project_dir } => {
            assert!(matches!(project_dir.root, PathRoot::Current));
            assert_eq!(project_dir.segments, vec!["hello".to_string()]);
        }
        other => panic!("expected the end, got {other:?}"),
    }
}

#[test]
fn new_failures_name_their_stage() {
    let cmd = new_cmd(&["broken"]);
    let app = new_app(&["rust"]);
    let found = || begin_new(&app, &cmd).state;
    let step = new(&cmd, found(), NewEvent::ManifestMissing);
    assert_eq!(
        new_failure(&step),
        (ErrorKind::ConfigNotFound, Phase::Config, "boilermaker.toml".to_string())
    );
    let step = new(&cmd, found(), NewEvent::ManifestUnreadable("bad".to_string()));
    assert_eq!(new_failure(&step), (ErrorKind::InvalidManifest, Phase::Config, "bad".to_string()));
    let step = new(&cmd, found(), NewEvent::ManifestRead(new_manifest(&[])));
    assert_eq!(
        new_failure(&step),
        (ErrorKind::InvalidVariable, Phase::Variables, "broken".to_string())
    );
    let step = new(&cmd, found(), NewEvent::Moved);
    assert_eq!(new_failure(&step).0, ErrorKind::UnexpectedEvent);
    let rendering = NewState::Rendering {
        template_name: "hello".to_string(),
        files: vec![ListedFile { path: "/p/x.html".to_string(), name: "x.html".to_string() }],
        next: 0,
        context: StringMap::new(),
        earlier: vec![],
    };
    let step = new(&cmd, rendering, NewEvent::FileRead("{% for %}".to_string()));
    assert_eq!(
        new_failure(&step),
        (ErrorKind::RenderFailure, Phase::Render, "x.html".to_string())
    );
    let scanning = NewState::Scanning {
        template: app.local_db.get_template(1).unwrap().unwrap(),
        context: StringMap::new(),
        user_vars: new_map(&[("a", "1")]),
    };
    let entries = vec![
        WalkEntry::File("{{ a }}".to_string()),
        WalkEntry::ReadFailed("denied".to_string()),
        WalkEntry::WalkFailed("loop".to_string()),
    ];
    let step = new(&cmd, scanning, NewEvent::ScanFinished(entries));
    assert_eq!(new_failure(&step), (ErrorKind::IoError, Phase::Variables, "denied".to_string()));
}

#[test]
fn manifest_variables_keep_strings_and_the_notation_of_other_values() {
    let variables = TemplateConfigVariableMap::from_values(vec![
        ("name".to_string(), VariableValue::Text("demo".to_string())),
        ("workers".to_string(), VariableValue::Other("8080".to_string())),
        ("debug".to_string(), VariableValue::Other("true".to_string())),
        ("tags".to_string(), VariableValue::Other("[\"a\", \"b\"]".to_string())),
        ("name".to_string(), VariableValue::Text("later".to_string())),
    ]);
    let map = variables.as_map();
    assert_eq!(map.len(), 4);
    assert_eq!(map.get("name").map(|s| s.as_str()), Some("later"));
    assert_eq!(map.get("workers").map(|s| s.as_str()), Some("8080"));
    assert_eq!(map.get("debug").map(|s| s.as_str()), Some("true"));
    assert_eq!(map.get("tags").map(|s| s.as_str()), Some("[\"a\", \"b\"]"));
    assert!(map.get("missing").is_none());
}

#[test]
fn the_template_is_chosen_by_the_number_of_matches() {
    let app = new_app(&["rust", "go"]);
    let cmd = new_cmd(&[]);
    let all = app.local_db.list_templates(None).unwrap();
    let step = choose_template(&cmd, vec![]);
    assert_eq!(
        new_failure(&step),
        (ErrorKind::TemplateNotFound, Phase::Lookup, "hello".to_string())
    );
    let step = choose_template(&cmd, all.clone());
    assert_eq!(
        new_failure(&step),
        (
            ErrorKind::AmbiguousTemplate,
            Phase::Lookup,
            "Multiple templates found. (You need to provide --lang)".to_string()
        )
    );
    let step = choose_template(&cmd, vec![all[0].clone()]);
    assert!(matches!(&step.state, NewState::Found { template } if template.id == all[0].id));
    assert!(matches!(step.action, NewAction::ReadManifest { .. }));
}

#[test]
fn the_rendered_text_is_written_and_the_source_is_remembered() {
    let files = || {
        vec![
            ListedFile { path: "/w/a.txt".to_string(), name: "a.txt".to_string() },
            ListedFile { path: "/w/b.txt".to_string(), name: "b.txt".to_string() },
        ]
    };
    let earlier = vec![("a.txt".to_string(), "A {{ x }}".to_string())];
    let step = write_rendered(
        "hello".to_string(),
        files(),
        1,
        new_map(&[("x", "1")]),
        earlier.clone(),
        "B {{ x }}".to_string(),
        Ok("B 1".to_string()),
    );
    match &step.state {
        NewState::Writing { template_name, files, next, context, earlier } => {
            assert_eq!(template_name, "hello");
            assert_eq!(files.len(), 2);
            assert_eq!(*next, 1);
            assert_eq!(context.get("x").map(|s| s.as_str()), Some("1"));
            assert_eq!(
                earlier,
                &vec![
                    ("a.txt".to_string(), "A {{ x }}".to_string()),
                    ("b.txt".to_string(), "B {{ x }}".to_string()),
                ]
            );
        }
        other => panic!("expected a write, got {other:?}"),
    }
    assert!(matches!(&step.action, NewAction::WriteFile { path, content } if path == "/w/b.txt" && content == "B 1"));

    let failure = PipelineError::new(ErrorKind::RenderFailure, Phase::Render, "b.txt");
    let step = write_rendered(
        "hello".to_string(),
        files(),
        1,
        StringMap::new(),
        earlier.clone(),
        "{% if %}".to_string(),
        Err(failure),
    );
    assert_eq!(new_failure(&step), (ErrorKind::RenderFailure, Phase::Render, "b.txt".to_string()));

    let step = write_rendered(
        "hello".to_string(),
        files(),
        2,
        StringMap::new(),
        earlier,
        String::new(),
        Ok(String::new()),
    );
    assert_eq!(new_failure(&step).0, ErrorKind::UnexpectedEvent);
}
