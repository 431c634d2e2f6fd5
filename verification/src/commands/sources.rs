//! Sources: importing the templates that a manifest lists, all or nothing,
//! and listing the sources that were imported.

use crate::config::TemplateConfig;
use crate::db::local_db::{
    files_of, lists_sources,
    pair_files,
    CacheState,
    CacheView,
    SourceRecordView,
    TemplateDb,
};
use crate::db::source::{
    fresh_ids, get_cloned, map_get, rows_of, staged_content, staged_records, AddSourceResult,
    PartialSourceTemplateRow, PartialSourceTemplateRowView, SourceMethods, SourceRow, SourceRowView,
    StagedTemplate, StagedTemplateView, TabledSourceRow,
};
use crate::error::{ErrorKind, Phase, PipelineError, PipelineErrorView};
use crate::state::AppState;
use crate::template::{
    get_lang, get_template_config_path, make_name_from_url, make_tmp_dir_from_url, name_from_url,
    resolved_lang, template_config_path, tmp_dir_from_url, CloneContext,
};
use crate::util::file::{payload_paths, list_template_files, PathPlan, PathPlanView};
use crate::util::map::StringMap;
use crate::util::string::{clone_strings, trim, trimmed, truncate_to_char_count};
use vstd::prelude::*;
use vstd::string::StringExecFns;

verus! {

/// What can be done about sources.
#[derive(Debug)]
pub enum Sources {
    /// Import a source.
    Add(Add),
    /// List the sources that were imported.
    List(List),
}

/// The request to import a source.
#[derive(Debug)]
pub struct Add {
    coordinate: String,
}

impl Add {
    /// A request to import the source whose manifest is at the coordinate.
    pub fn new(coordinate: String) -> (cmd: Self)
        ensures
            cmd.coordinate_text() == coordinate@,
    {
        Add { coordinate }
    }

    /// Where the manifest of the source is, as it was given.
    pub closed spec fn coordinate_text(&self) -> Seq<char> {
        self.coordinate@
    }

    /// Where the manifest of the source is, as it was given.
    pub fn coordinate(&self) -> (text: &String)
        ensures
            text@ == self.coordinate_text(),
    {
        &self.coordinate
    }
}

/// The manifest of a source: what it says of the source, and the templates
/// that it lists.
#[derive(Debug)]
pub struct SourceConfig {
    pub source: StringMap,
    pub templates: Vec<StringMap>,
}

/// The request to list the sources.
#[derive(Debug)]
pub struct List {
    pub local: bool,
}

/// A source as a configuration file describes it, for a table.
#[derive(Debug)]
pub struct SourceMap {
    pub name: String,
    pub backend: String,
    pub description: String,
}

/// The longest description, in bytes, that a table shows in full.
pub const DESCRIPTION_LIMIT: usize = 50;

/// The value of a map under a key, or the empty text.
pub open spec fn value_or_empty(m: Map<Seq<char>, Seq<char>>, key: Seq<char>) -> Seq<char> {
    match map_get(m, key) {
        Some(text) => text,
        None => Seq::empty(),
    }
}

/// The first characters of a text, up to a number of them.
pub open spec fn first_chars(text: Seq<char>, n: int) -> Seq<char> {
    if n <= text.len() {
        text.take(n)
    } else {
        text
    }
}

/// The number of bytes that a text takes in UTF-8, as `str::len` counts
/// them.
pub open spec fn byte_len(text: Seq<char>) -> usize {
    vstd::utf8::encode_utf8(text).len() as usize
}

/// A description as a table shows it: in full if it takes no more than
/// [`DESCRIPTION_LIMIT`] bytes, else cut after that many characters and
/// followed by three dots.
pub open spec fn shown_description(text: Seq<char>) -> Seq<char> {
    if byte_len(text) > DESCRIPTION_LIMIT {
        first_chars(text, DESCRIPTION_LIMIT as int) + seq!['.', '.', '.']
    } else {
        text
    }
}

/// The value of a map under a key, or the empty text.
fn value_or_default(m: &StringMap, key: &str) -> (text: String)
    ensures
        text@ == value_or_empty(m@, key@),
{
    match m.get(key) {
        Some(text) => text.clone(),
        None => String::new(),
    }
}

impl SourceMap {
    /// The source that a map with the keys `name`, `backend` and
    /// `description` describes. What is missing is empty.
    pub fn from(m: &StringMap) -> (out: Self)
        ensures
            out.name@ == value_or_empty(m@, "name"@),
            out.backend@ == value_or_empty(m@, "backend"@),
            out.description@ == shown_description(value_or_empty(m@, "description"@)),
    {
        let description = value_or_default(m, "description");
        let description = if description.as_str().len() > DESCRIPTION_LIMIT {
            proof {
                reveal_strlit("...");
                assert("..."@ =~= seq!['.', '.', '.']);
            }
            let mut cut = truncate_to_char_count(description.as_str(), DESCRIPTION_LIMIT);
            cut.append("...");
            cut
        } else {
            description
        };
        SourceMap {
            name: value_or_default(m, "name"),
            backend: value_or_default(m, "backend"),
            description,
        }
    }
}

/// A template of a source whose repository is cloned and whose manifest
/// is checked: where its payload is, and its row.
#[derive(Debug)]
pub struct StagedWork {
    pub work_dir: PathPlan,
    pub row: PartialSourceTemplateRow,
}

/// The mathematical value of a [`StagedWork`].
pub struct StagedWorkView {
    pub work_dir: PathPlanView,
    pub row: PartialSourceTemplateRowView,
}

impl View for StagedWork {
    type V = StagedWorkView;

    open spec fn view(&self) -> StagedWorkView {
        StagedWorkView { work_dir: self.work_dir@, row: self.row@ }
    }
}

impl DeepView for StagedWork {
    type V = StagedWorkView;

    open spec fn deep_view(&self) -> StagedWorkView {
        self@
    }
}

/// The name of a listed template: the one that the list gives, else the
/// one that the URL of its repository gives.
pub open spec fn listed_name(m: Map<Seq<char>, Seq<char>>) -> Seq<char> {
    match map_get(m, "name"@) {
        Some(name) => name,
        None => name_from_url(m["repo"@]),
    }
}

/// The directory of a listed template within its clone.
pub open spec fn listed_work_dir(m: Map<Seq<char>, Seq<char>>) -> PathPlanView {
    tmp_dir_from_url(m["repo"@]).join_optional(map_get(m, "subdir"@))
}

/// Whether a request to clone is the one for a listed template.
pub open spec fn listed_clone(m: Map<Seq<char>, Seq<char>>, ctx: CloneContext) -> bool {
    &&& ctx.url@ == m["repo"@]
    &&& ctx.branch.deep_view() == map_get(m, "branch"@)
    &&& ctx.dest matches Some(dir)
    &&& dir@ == tmp_dir_from_url(m["repo"@])
}

/// The staged form of a listed template, once its language is known.
pub open spec fn listed_work(m: Map<Seq<char>, Seq<char>>, lang: Seq<char>) -> StagedWorkView {
    StagedWorkView {
        work_dir: listed_work_dir(m),
        row: PartialSourceTemplateRowView {
            repo: m["repo"@],
            lang,
            name: listed_name(m),
            branch: map_get(m, "branch"@),
            subdir: map_get(m, "subdir"@),
        },
    }
}

/// The row of the source that a manifest describes, fetched from a
/// coordinate.
pub open spec fn source_row_of_manifest(
    source: Map<Seq<char>, Seq<char>>,
    coordinate: Seq<char>,
) -> SourceRowView {
    SourceRowView {
        name: source["name"@],
        backend: source["backend"@],
        coordinate,
        description: map_get(source, "description"@),
        sha256_hash: None,
    }.with_digest()
}

/// How far the import of a source has come.
#[derive(Debug)]
pub enum AddState {
    /// Nothing has been done; the manifest is being fetched.
    Requested,
    /// The templates before the one at `staged.len()` are staged; the
    /// repository of that one is being cloned.
    Cloning { source: SourceRow, templates: Vec<StringMap>, staged: Vec<StagedWork> },
    /// The repository of the template at `staged.len()` is cloned; its
    /// manifest is being read.
    Validating { source: SourceRow, templates: Vec<StringMap>, staged: Vec<StagedWork> },
    /// All templates are staged, and the files of those before the one at
    /// `gathered.len()` are read; the files of that one are being listed.
    Listing { source: SourceRow, staged: Vec<StagedWork>, gathered: Vec<StagedTemplate> },
    /// The files of the template at `gathered.len()` are listed; those of
    /// its payload are being read.
    Reading {
        source: SourceRow,
        staged: Vec<StagedWork>,
        gathered: Vec<StagedTemplate>,
        paths: Vec<String>,
    },
    /// The source is in the store, with all its templates.
    Added,
    /// The import failed, and the store holds nothing of the source.
    Failed,
}

/// What happened outside since the last step of an import.
#[derive(Debug)]
pub enum AddEvent {
    /// The manifest of the source could not be fetched.
    FetchFailed(String),
    /// The manifest of the source could not be understood.
    ManifestUnreadable(String),
    /// The manifest of the source.
    ManifestFetched(SourceConfig),
    /// The directory to clone into could not be cleared.
    SetupFailed(String),
    /// The repository could not be cloned.
    CloneFailed(String),
    /// The repository is cloned.
    CloneFinished,
    /// The clone holds no manifest of a template.
    ConfigMissing,
    /// The manifest of the template could not be read or understood.
    ConfigUnreadable(String),
    /// The manifest of the template.
    ConfigRead(TemplateConfig),
    /// The files could not be listed.
    ListFailed(String),
    /// The paths of the files of the template.
    FilesListed(Vec<String>),
    /// A file could not be read.
    ReadFailed(String),
    /// The contents of the files that were to be read, in their order.
    FilesRead(Vec<String>),
}

/// What is to be done outside before the next step of an import.
#[derive(Debug)]
pub enum AddAction {
    /// Fetch the manifest of the source from the coordinate.
    Fetch { coordinate: String },
    /// Clear the directory and clone the repository into it.
    Clone(CloneContext),
    /// Read the manifest of a template from the file.
    ReadManifest { file: PathPlan },
    /// List the files under the directory.
    ListFiles { dir: PathPlan },
    /// Read the files at the paths.
    ReadFiles { paths: Vec<String> },
    /// Nothing is left to do: the ids that the store gave.
    Finish(AddSourceResult),
    /// Nothing can be done any more.
    Fail(PipelineError),
}

/// A step of an import: the state that is reached, and what is to be done
/// next.
#[derive(Debug)]
pub struct AddStep {
    pub state: AddState,
    pub action: AddAction,
}

impl AddStep {
    /// Whether the step is a failure of the given kind, in the given stage,
    /// with the given words.
    pub open spec fn failed_with(self, kind: ErrorKind, phase: Phase, detail: Seq<char>) -> bool {
        &&& self.state is Failed
        &&& self.action matches AddAction::Fail(e)
        &&& e@ == (PipelineErrorView { kind, phase, detail })
    }

    /// Whether the step is a failure of the given kind.
    pub open spec fn failed(self, kind: ErrorKind) -> bool {
        &&& self.state is Failed
        &&& self.action matches AddAction::Fail(e)
        &&& e.kind == kind
    }
}

/// What happens when the files of the templates before the one at
/// `gathered.len()` are read: the files of that one are to be listed, or,
/// where none is left, the source goes to the store with all its templates
/// and their files, all or nothing.
pub open spec fn gathering_advances(
    source: SourceRowView,
    staged: Seq<StagedWorkView>,
    gathered: Seq<StagedTemplateView>,
    now: i32,
    before: CacheView,
    step: AddStep,
    after: CacheView,
) -> bool {
    if gathered.len() < staged.len() {
        &&& after == before
        &&& step.state matches AddState::Listing { source: s, staged: w, gathered: g }
        &&& s@ == source
        &&& w.deep_view() == staged
        &&& g.deep_view() == gathered
        &&& step.action matches AddAction::ListFiles { dir }
        &&& dir@ == staged[gathered.len() as int].work_dir
    } else if step.state is Added {
        &&& step.action matches AddAction::Finish(added)
        &&& !before.has_source(added.source_id)
        &&& added.source_template_ids@.len() == gathered.len()
        &&& fresh_ids(before, added.source_template_ids@)
        &&& after == before.with_source(
            SourceRecordView { id: added.source_id, row: source, created_at: now },
            staged_records(gathered, added.source_id, added.source_template_ids@, now),
            staged_content(gathered, added.source_template_ids@, now),
        )
    } else {
        &&& after == before
        &&& step.failed(ErrorKind::StoreFailure)
    }
}

/// What happens when the templates before the one at `staged.len()` are
/// staged: the repository of that one is to be cloned, unless the list
/// names none for it; where no template is left, the files are gathered.
pub open spec fn staging_advances(
    source: SourceRowView,
    templates: Seq<Map<Seq<char>, Seq<char>>>,
    staged: Seq<StagedWorkView>,
    now: i32,
    before: CacheView,
    step: AddStep,
    after: CacheView,
) -> bool {
    if staged.len() < templates.len() {
        let m = templates[staged.len() as int];
        &&& after == before
        &&& if m.contains_key("repo"@) {
            &&& step.state matches AddState::Cloning { source: s, templates: t, staged: w }
            &&& s@ == source
            &&& t.deep_view() == templates
            &&& w.deep_view() == staged
            &&& step.action matches AddAction::Clone(ctx)
            &&& listed_clone(m, ctx)
        } else {
            step.failed_with(
                ErrorKind::InvalidManifest,
                Phase::Config,
                "Template missing 'repo' field"@,
            )
        }
    } else {
        gathering_advances(source, staged, Seq::empty(), now, before, step, after)
    }
}

/// What a step of an import does, for each state and each event. An event
/// that the state does not wait for is a failure.
pub open spec fn add_post(
    cmd: &Add,
    state: AddState,
    event: AddEvent,
    now: i32,
    before: CacheView,
    step: AddStep,
    after: CacheView,
) -> bool {
    match (state, event) {
        (AddState::Requested, AddEvent::FetchFailed(said)) => {
            &&& after == before
            &&& step.failed_with(ErrorKind::FetchFailure, Phase::Fetch, said@)
        },
        (AddState::Requested, AddEvent::ManifestUnreadable(said)) => {
            &&& after == before
            &&& step.failed_with(ErrorKind::InvalidManifest, Phase::Config, said@)
        },
        (AddState::Requested, AddEvent::ManifestFetched(config)) => {
            if !config.source@.contains_key("name"@) {
                &&& after == before
                &&& step.failed_with(
                    ErrorKind::InvalidManifest,
                    Phase::Config,
                    "Template missing 'source_name' field"@,
                )
            } else if !config.source@.contains_key("backend"@) {
                &&& after == before
                &&& step.failed_with(
                    ErrorKind::InvalidManifest,
                    Phase::Config,
                    "Template missing 'backend' field"@,
                )
            } else {
                staging_advances(
                    source_row_of_manifest(config.source@, trimmed(cmd.coordinate_text())),
                    config.templates.deep_view(),
                    Seq::empty(),
                    now,
                    before,
                    step,
                    after,
                )
            }
        },
        (AddState::Cloning { source, templates, staged }, AddEvent::SetupFailed(said)) => {
            &&& after == before
            &&& step.failed_with(ErrorKind::IoError, Phase::Setup, said@)
        },
        (AddState::Cloning { source, templates, staged }, AddEvent::CloneFailed(said)) => {
            &&& after == before
            &&& step.failed_with(ErrorKind::CloneFailure, Phase::Clone, said@)
        },
        (AddState::Cloning { source, templates, staged }, AddEvent::CloneFinished) => {
            &&& after == before
            &&& if staged@.len() < templates@.len() && templates.deep_view()[staged@.len() as int].contains_key(
                "repo"@,
            ) {
                &&& step.state matches AddState::Validating { source: s, templates: t, staged: w }
                &&& s@ == source@
                &&& t.deep_view() == templates.deep_view()
                &&& w.deep_view() == staged.deep_view()
                &&& step.action matches AddAction::ReadManifest { file }
                &&& file@ == template_config_path(
                    listed_work_dir(templates.deep_view()[staged@.len() as int]),
                )
            } else {
                step.failed(ErrorKind::UnexpectedEvent)
            }
        },
        (AddState::Validating { source, templates, staged }, AddEvent::ConfigMissing) => {
            &&& after == before
            &&& step.failed_with(ErrorKind::ConfigNotFound, Phase::Config, "boilermaker.toml"@)
        },
        (AddState::Validating { source, templates, staged }, AddEvent::ConfigUnreadable(said)) => {
            &&& after == before
            &&& step.failed_with(ErrorKind::InvalidManifest, Phase::Config, said@)
        },
        (AddState::Validating { source, templates, staged }, AddEvent::ConfigRead(config)) => {
            if staged@.len() < templates@.len() && templates.deep_view()[staged@.len() as int].contains_key(
                "repo"@,
            ) {
                let m = templates.deep_view()[staged@.len() as int];
                match resolved_lang(
                    config.project.default_lang.deep_view(),
                    map_get(m, "lang"@),
                ) {
                    Some(lang) => staging_advances(
                        source@,
                        templates.deep_view(),
                        staged.deep_view().push(listed_work(m, lang)),
                        now,
                        before,
                        step,
                        after,
                    ),
                    None => {
                        &&& after == before
                        &&& step.failed(ErrorKind::LanguageUnresolved)
                    },
                }
            } else {
                &&& after == before
                &&& step.failed(ErrorKind::UnexpectedEvent)
            }
        },
        (AddState::Listing { source, staged, gathered }, AddEvent::ListFailed(said)) => {
            &&& after == before
            &&& step.failed_with(ErrorKind::WalkError, Phase::Index, said@)
        },
        (AddState::Listing { source, staged, gathered }, AddEvent::FilesListed(paths)) => {
            &&& after == before
            &&& step.state matches AddState::Reading {
                source: s,
                staged: w,
                gathered: g,
                paths: kept,
            }
            &&& s@ == source@
            &&& w.deep_view() == staged.deep_view()
            &&& g.deep_view() == gathered.deep_view()
            &&& kept.deep_view() == paths.deep_view().filter(payload_paths())
            &&& step.action matches AddAction::ReadFiles { paths: wanted }
            &&& wanted.deep_view() == kept.deep_view()
        },
        (AddState::Reading { source, staged, gathered, paths }, AddEvent::ReadFailed(said)) => {
            &&& after == before
            &&& step.failed_with(ErrorKind::IoError, Phase::Index, said@)
        },
        (AddState::Reading { source, staged, gathered, paths }, AddEvent::FilesRead(contents)) => {
            if gathered@.len() < staged@.len() && contents@.len() == paths@.len() {
                gathering_advances(
                    source@,
                    staged.deep_view(),
                    gathered.deep_view().push(
                        StagedTemplateView {
                            files: files_of(paths.deep_view(), contents.deep_view()),
                            row: staged.deep_view()[gathered@.len() as int].row,
                        },
                    ),
                    now,
                    before,
                    step,
                    after,
                )
            } else {
                &&& after == before
                &&& step.failed(ErrorKind::UnexpectedEvent)
            }
        },
        _ => {
            &&& after == before
            &&& step.failed(ErrorKind::UnexpectedEvent)
        },
    }
}

/// The number of templates that go to the store with the source when the
/// last files are read; none before that.
pub open spec fn staged_count(state: AddState) -> nat {
    match state {
        AddState::Reading { source, staged, gathered, paths } => staged@.len(),
        _ => 0,
    }
}

/// A step that fails.
fn fail(kind: ErrorKind, phase: Phase, detail: &str) -> (step: AddStep)
    ensures
        step.failed_with(kind, phase, detail@),
        step.failed(kind),
{
    AddStep { state: AddState::Failed, action: AddAction::Fail(PipelineError::new(kind, phase, detail)) }
}

/// A step that fails because the event was not waited for.
fn unexpected() -> (step: AddStep)
    ensures
        step.failed(ErrorKind::UnexpectedEvent),
{
    fail(ErrorKind::UnexpectedEvent, Phase::Setup, "unexpected event")
}

/// Begins an import: the manifest is to be fetched from the coordinate,
/// without the white space around it.
pub fn begin_add(cmd: &Add) -> (step: AddStep)
    ensures
        step.state is Requested,
        step.action matches AddAction::Fetch { coordinate } && coordinate@ == trimmed(
            cmd.coordinate_text(),
        ),
{
    AddStep {
        state: AddState::Requested,
        action: AddAction::Fetch { coordinate: trim(cmd.coordinate.as_str()).to_owned() },
    }
}

/// Goes on with the files: lists those of the next template, or hands the
/// source with all its templates to the store.
fn advance_gathering<D: TemplateDb>(
    db: &mut D,
    source: SourceRow,
    staged: Vec<StagedWork>,
    gathered: Vec<StagedTemplate>,
    now: i32,
) -> (step: AddStep)
    ensures
        gathering_advances(
            source@,
            staged.deep_view(),
            gathered.deep_view(),
            now,
            old(db).state(),
            step,
            final(db).state(),
        ),
        old(db).dependable() && old(db).state().schema && old(db).room() >= rows_of(
            gathered@.len(),
        ) ==> !step.failed(ErrorKind::StoreFailure),
        final(db).dependable() == old(db).dependable(),
        final(db).room() + rows_of(gathered@.len()) >= old(db).room(),
        old(db).state().ids_distinct() ==> final(db).state().ids_distinct(),
{
    if gathered.len() < staged.len() {
        let dir = staged[gathered.len()].work_dir.clone();
        AddStep {
            state: AddState::Listing { source, staged, gathered },
            action: AddAction::ListFiles { dir },
        }
    } else {
        match db.add_source(source, gathered, now) {
            Ok(added) => AddStep { state: AddState::Added, action: AddAction::Finish(added) },
            Err(e) => {
                let said = e.message();
                fail(ErrorKind::StoreFailure, Phase::Register, said.as_str())
            },
        }
    }
}

/// Goes on with the staging: clones the repository of the next template,
/// or goes on with the files where all templates are staged.
fn advance_staging<D: TemplateDb>(
    db: &mut D,
    source: SourceRow,
    templates: Vec<StringMap>,
    staged: Vec<StagedWork>,
    now: i32,
) -> (step: AddStep)
    ensures
        staging_advances(
            source@,
            templates.deep_view(),
            staged.deep_view(),
            now,
            old(db).state(),
            step,
            final(db).state(),
        ),
        old(db).dependable() && old(db).state().schema && old(db).room() >= 1 ==> !step.failed(
            ErrorKind::StoreFailure,
        ),
        final(db).dependable() == old(db).dependable(),
        final(db).room() + 1 >= old(db).room(),
        old(db).state().ids_distinct() ==> final(db).state().ids_distinct(),
{
    if staged.len() < templates.len() {
        let m = &templates[staged.len()];
        let repo = match get_cloned(m, "repo") {
            Some(repo) => repo,
            None => {
                return fail(
                    ErrorKind::InvalidManifest,
                    Phase::Config,
                    "Template missing 'repo' field",
                );
            },
        };
        let ctx = CloneContext {
            dest: Some(make_tmp_dir_from_url(repo.as_str())),
            url: repo,
            branch: get_cloned(m, "branch"),
        };
        AddStep {
            state: AddState::Cloning { source, templates, staged },
            action: AddAction::Clone(ctx),
        }
    } else {
        let gathered: Vec<StagedTemplate> = Vec::new();
        assert(gathered.deep_view() =~= Seq::empty());
        advance_gathering(db, source, staged, gathered, now)
    }
}

/// Takes the import of a source one step further: from the state that it
/// is in and from what happened outside, to the next state and to what is
/// to be done outside next. The store is written once, at the end, when
/// every template is staged and every file is read; until then, and
/// whenever the import fails, it stays as it was.
pub fn add<D: TemplateDb>(
    app_state: &mut AppState<D>,
    cmd: &Add,
    state: AddState,
    event: AddEvent,
    now: i32,
) -> (step: AddStep)
    ensures
        add_post(
            cmd,
            state,
            event,
            now,
            old(app_state).local_db.state(),
            step,
            final(app_state).local_db.state(),
        ),
        !(step.state is Added) ==> final(app_state).local_db.state() == old(
            app_state,
        ).local_db.state(),
        old(app_state).local_db.dependable() && old(app_state).local_db.state().schema && old(
            app_state,
        ).local_db.room() >= rows_of(staged_count(state)) ==> !step.failed(
            ErrorKind::StoreFailure,
        ),
        final(app_state).local_db.dependable() == old(app_state).local_db.dependable(),
        final(app_state).local_db.room() + rows_of(staged_count(state)) >= old(
            app_state,
        ).local_db.room(),
        old(app_state).local_db.state().ids_distinct()
            ==> final(app_state).local_db.state().ids_distinct(),
        final(app_state).log_level == old(app_state).log_level,
{
    match (state, event) {
        (AddState::Requested, AddEvent::FetchFailed(said)) => fail(
            ErrorKind::FetchFailure,
            Phase::Fetch,
            said.as_str(),
        ),
        (AddState::Requested, AddEvent::ManifestUnreadable(said)) => fail(
            ErrorKind::InvalidManifest,
            Phase::Config,
            said.as_str(),
        ),
        (AddState::Requested, AddEvent::ManifestFetched(config)) => {
            let name = match get_cloned(&config.source, "name") {
                Some(name) => name,
                None => {
                    return fail(
                        ErrorKind::InvalidManifest,
                        Phase::Config,
                        "Template missing 'source_name' field",
                    );
                },
            };
            let backend = match get_cloned(&config.source, "backend") {
                Some(backend) => backend,
                None => {
                    return fail(
                        ErrorKind::InvalidManifest,
                        Phase::Config,
                        "Template missing 'backend' field",
                    );
                },
            };
            let source_row = SourceRow {
                name,
                backend,
                description: get_cloned(&config.source, "description"),
                coordinate: trim(cmd.coordinate.as_str()).to_owned(),
                sha256_hash: None,
            }.set_hash_string();
            let staged: Vec<StagedWork> = Vec::new();
            assert(staged.deep_view() =~= Seq::empty());
            advance_staging(&mut app_state.local_db, source_row, config.templates, staged, now)
        },
        (AddState::Cloning { source, templates, staged }, AddEvent::SetupFailed(said)) => fail(
            ErrorKind::IoError,
            Phase::Setup,
            said.as_str(),
        ),
        (AddState::Cloning { source, templates, staged }, AddEvent::CloneFailed(said)) => fail(
            ErrorKind::CloneFailure,
            Phase::Clone,
            said.as_str(),
        ),
        (AddState::Cloning { source, templates, staged }, AddEvent::CloneFinished) => {
            if staged.len() >= templates.len() {
                return unexpected();
            }
            let m = &templates[staged.len()];
            let repo = match get_cloned(m, "repo") {
                Some(repo) => repo,
                None => {
                    return unexpected();
                },
            };
            let work_dir = make_tmp_dir_from_url(repo.as_str()).join_optional(
                &get_cloned(m, "subdir"),
            );
            AddStep {
                action: AddAction::ReadManifest { file: get_template_config_path(work_dir) },
                state: AddState::Validating { source, templates, staged },
            }
        },
        (AddState::Validating { source, templates, staged }, AddEvent::ConfigMissing) => fail(
            ErrorKind::ConfigNotFound,
            Phase::Config,
            "boilermaker.toml",
        ),
        (AddState::Validating { source, templates, staged }, AddEvent::ConfigUnreadable(said)) => fail(
            ErrorKind::InvalidManifest,
            Phase::Config,
            said.as_str(),
        ),
        (AddState::Validating { source, templates, staged }, AddEvent::ConfigRead(config)) => {
            if staged.len() >= templates.len() {
                return unexpected();
            }
            let m = &templates[staged.len()];
            let repo = match get_cloned(m, "repo") {
                Some(repo) => repo,
                None => {
                    return unexpected();
                },
            };
            let lang = match get_lang(&config, &get_cloned(m, "lang")) {
                Ok(lang) => lang,
                Err(e) => {
                    return AddStep { state: AddState::Failed, action: AddAction::Fail(e) };
                },
            };
            let name = match get_cloned(m, "name") {
                Some(name) => name,
                None => make_name_from_url(repo.as_str()),
            };
            let subdir = get_cloned(m, "subdir");
            let work = StagedWork {
                work_dir: make_tmp_dir_from_url(repo.as_str()).join_optional(&subdir),
                row: PartialSourceTemplateRow {
                    name,
                    lang,
                    repo,
                    branch: get_cloned(m, "branch"),
                    subdir,
                },
            };
            let ghost before = staged.deep_view();
            let mut staged = staged;
            staged.push(work);
            assert(staged.deep_view() =~= before.push(work@));
            advance_staging(&mut app_state.local_db, source, templates, staged, now)
        },
        (AddState::Listing { source, staged, gathered }, AddEvent::ListFailed(said)) => fail(
            ErrorKind::WalkError,
            Phase::Index,
            said.as_str(),
        ),
        (AddState::Listing { source, staged, gathered }, AddEvent::FilesListed(paths)) => {
            let kept = list_template_files(&paths);
            let wanted = clone_strings(&kept);
            AddStep {
                state: AddState::Reading { source, staged, gathered, paths: kept },
                action: AddAction::ReadFiles { paths: wanted },
            }
        },
        (AddState::Reading { source, staged, gathered, paths }, AddEvent::ReadFailed(said)) => fail(
            ErrorKind::IoError,
            Phase::Index,
            said.as_str(),
        ),
        (AddState::Reading { source, staged, gathered, paths }, AddEvent::FilesRead(contents)) => {
            if gathered.len() >= staged.len() || contents.len() != paths.len() {
                return unexpected();
            }
            let files = pair_files(&paths, &contents);
            let row = staged[gathered.len()].row.clone();
            let ghost before = gathered.deep_view();
            let mut gathered = gathered;
            let item = StagedTemplate { files, row };
            gathered.push(item);
            assert(gathered.deep_view() =~= before.push(item@));
            advance_gathering(&mut app_state.local_db, source, staged, gathered, now)
        },
        _ => unexpected(),
    }
}

/// Whether the rows of a table show the stored sources, newest first.
pub open spec fn shows_sources(rows: Seq<TabledSourceRow>, stored: Seq<SourceRecordView>) -> bool {
    exists|sources: Seq<SourceRowView>|
        {
            &&& #[trigger] lists_sources(sources, stored)
            &&& rows.len() == sources.len()
            &&& forall|i: int|
                0 <= i < rows.len() ==> crate::db::source::tabled_source(
                    #[trigger] rows[i],
                    sources[i],
                )
        }
}

/// Lists the sources as rows of a table, newest first.
#[verifier::loop_isolation(false)]
pub fn list<D: TemplateDb>(app_state: &AppState<D>, _cmd: &List) -> (shown: Result<
    Vec<TabledSourceRow>,
    PipelineError,
>)
    ensures
        match shown {
            Ok(rows) => shows_sources(rows@, app_state.local_db.state().sources),
            Err(e) => e.kind == ErrorKind::StoreFailure && e.phase == Phase::Lookup,
        },
        app_state.local_db.dependable() && app_state.local_db.state().schema ==> shown is Ok,
{
    let sources = match app_state.local_db.list_sources() {
        Ok(sources) => sources,
        Err(e) => {
            let said = e.message();
            return Err(PipelineError::new(ErrorKind::StoreFailure, Phase::Lookup, said.as_str()));
        },
    };
    let ghost found = sources.deep_view();
    assert(lists_sources(found, app_state.local_db.state().sources));
    let mut rows: Vec<TabledSourceRow> = Vec::new();
    let mut i: usize = 0;
    while i < sources.len()
        invariant
            i <= sources@.len(),
            found == sources.deep_view(),
            rows@.len() == i,
            forall|j: int|
                0 <= j < i ==> crate::db::source::tabled_source(#[trigger] rows@[j], found[j]),
        decreases sources@.len() - i,
    {
        rows.push(TabledSourceRow::from(sources[i].clone()));
        i += 1;
    }
    Ok(rows)
}

} // verus!
