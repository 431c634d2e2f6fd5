//! Making a project from an installed template: find it, check the
//! variables, render its files, put them in place.

use crate::config::TemplateConfig;
use crate::db::local_db::{CacheState, StoreError, TemplateDb};
use crate::db::template::{
    ordered, TemplateFindParams, TemplateFindParamsView, TemplateMethods, TemplateOrder,
    TemplateResult, TemplateResultView,
};
use crate::error::{ErrorKind, Phase, PipelineError, PipelineErrorView};
use crate::state::AppState;
use crate::template::static_analysis::{
    all_names, failure_of, find_variables_in_path, first_failure, holds_name, is_set_of,
    WalkEntry,
};
use crate::template::{
    create_project_dir, get_template_config_path, make_project_dir_path, make_work_dir_path,
    project_dir_path, render_failure, render_template_files, template_config_path, work_dir_path,
};
use crate::util::file::{PathPlan, PathPlanView, PathRootView};
use crate::util::map::StringMap;
use crate::util::string::{chars_of, clone_opt_string, clone_strings};
use vstd::prelude::*;
use vstd::string::{StrSliceExecFns, StringExecFns};

verus! {

/// The request to make a project from a template.
#[derive(Debug)]
pub struct New {
    pub name: String,
    pub lang: Option<String>,
    pub rename: Option<String>,
    pub dir: Option<String>,
    pub output_path: Option<String>,
    pub overwrite: bool,
    pub vars: Vec<String>,
}

impl New {
    /// The name of the project: the new name if one was given, else the
    /// name of the template.
    pub open spec fn project_name(&self) -> Seq<char> {
        match self.rename {
            Some(name) => name@,
            None => self.name@,
        }
    }

    /// The filters by which the template is looked up: its name, and its
    /// language if one was given.
    pub open spec fn find_params(&self) -> TemplateFindParamsView {
        TemplateFindParamsView {
            ids: None,
            name: Some(self.name@),
            lang: self.lang.deep_view(),
            repo: None,
            branch: None,
            subdir: None,
            sha256_hash: None,
        }
    }

    /// The name of the project.
    pub fn make_project_name(&self) -> (name: String)
        ensures
            name@ == self.project_name(),
    {
        match &self.rename {
            Some(name) => name.clone(),
            None => self.name.clone(),
        }
    }
}

/// The place of the first `=` of a text at or behind `from`; the length of
/// the text if there is none.
pub open spec fn first_equals_from(s: Seq<char>, from: int) -> int
    decreases s.len() - from,
{
    if from < 0 || from >= s.len() {
        s.len() as int
    } else if s[from] == '=' {
        from
    } else {
        first_equals_from(s, from + 1)
    }
}

/// The key and the value of a variable that is given as `key=value`: what
/// stands before the first `=`, and what stands behind it. `None` for a
/// text without `=`.
pub open spec fn split_pair(s: Seq<char>) -> Option<(Seq<char>, Seq<char>)> {
    let at = first_equals_from(s, 0);
    if at < s.len() {
        Some((s.take(at), s.skip(at + 1)))
    } else {
        None
    }
}

/// The map of the variables that are given as `key=value`, a later one in
/// place of an earlier one with the same key. `None` where one of them has
/// no `=`.
pub open spec fn pairs_map(vars: Seq<Seq<char>>) -> Option<Map<Seq<char>, Seq<char>>>
    decreases vars.len(),
{
    if vars.len() == 0 {
        Some(Map::empty())
    } else {
        match (pairs_map(vars.drop_last()), split_pair(vars.last())) {
            (Some(m), Some((key, value))) => Some(m.insert(key, value)),
            _ => None,
        }
    }
}

/// Splits a variable that is given as `key=value` at its first `=`.
pub fn split_variable(mapping: &str) -> (pair: Option<(String, String)>)
    ensures
        pair.deep_view() == split_pair(mapping@),
{
    let chars = chars_of(mapping);
    let mut at: usize = 0;
    while at < chars.len() && chars[at] != '='
        invariant
            at <= chars@.len(),
            first_equals_from(chars@, 0) == first_equals_from(chars@, at as int),
        decreases chars@.len() - at,
    {
        at += 1;
    }
    if at >= chars.len() {
        return None;
    }
    let key = mapping.substring_char(0, at).to_owned();
    let value = mapping.substring_char(at + 1, chars.len()).to_owned();
    assert(mapping@.subrange(0, at as int) =~= mapping@.take(at as int));
    assert(mapping@.subrange(at as int + 1, mapping@.len() as int) =~= mapping@.skip(at as int + 1));
    Some((key, value))
}

/// Turns variables that are given as `key=value` into a map. The first one
/// without `=` is a failure that names it.
pub fn vec_to_hashmap(vec: &Vec<String>) -> (map: Result<StringMap, PipelineError>)
    ensures
        match map {
            Ok(m) => pairs_map(vec.deep_view()) == Some(m@),
            Err(e) => {
                &&& pairs_map(vec.deep_view()) is None
                &&& e.kind == ErrorKind::InvalidVariable
                &&& e.phase == Phase::Variables
                &&& exists|i: int|
                    0 <= i < vec@.len() && split_pair(#[trigger] vec.deep_view()[i]) is None
                        && e.detail@ == vec.deep_view()[i] && pairs_map(vec.deep_view().take(i))
                        is Some
            },
        },
{
    let ghost all = vec.deep_view();
    let mut map = StringMap::new();
    let mut i: usize = 0;
    assert(all.take(0) =~= Seq::empty());
    while i < vec.len()
        invariant
            i <= vec@.len(),
            all == vec.deep_view(),
            pairs_map(all.take(i as int)) == Some(map@),
        decreases vec@.len() - i,
    {
        proof {
            let longer = all.take(i as int + 1);
            assert(longer.drop_last() =~= all.take(i as int));
            assert(longer.last() == all[i as int]);
        }
        match split_variable(vec[i].as_str()) {
            Some((key, value)) => {
                map.insert(key, value);
            },
            None => {
                proof {
                    lemma_pairs_map_fails(all, i as int);
                }
                return Err(
                    PipelineError::new(
                        ErrorKind::InvalidVariable,
                        Phase::Variables,
                        vec[i].as_str(),
                    ),
                );
            },
        }
        i += 1;
    }
    assert(all.take(i as int) =~= all);
    Ok(map)
}

/// Where one variable cannot be split, the variables give no map.
pub proof fn lemma_pairs_map_fails(vars: Seq<Seq<char>>, i: int)
    requires
        0 <= i < vars.len(),
        split_pair(vars[i]) is None,
    ensures
        pairs_map(vars) is None,
    decreases vars.len(),
{
    if i < vars.len() - 1 {
        lemma_pairs_map_fails(vars.drop_last(), i);
    }
}

/// The keys of a list of entries, in order.
pub open spec fn keys_of(entries: Seq<(String, String)>) -> Seq<Seq<char>> {
    Seq::new(entries.len(), |i: int| entries[i].0@)
}

/// The names that a list of allowed names does not hold.
pub open spec fn not_among(allowed: Seq<Seq<char>>) -> spec_fn(Seq<char>) -> bool {
    |name: Seq<char>| !allowed.contains(name)
}

/// The variables that were given but that the template does not use, and
/// the variables that it uses.
#[derive(Debug)]
pub struct UnknownVariables {
    pub unknown: Vec<String>,
    pub known: Vec<String>,
}

/// Adds the variables that the user gave to the context of a template.
/// Every one of them must be among the variables that the template uses;
/// else nothing is added, and the failure names those that are not, and
/// those that the template uses.
pub fn extend_template_context(
    template_context: &mut StringMap,
    allowed: &Vec<String>,
    user_vars: &StringMap,
) -> (done: Result<(), UnknownVariables>)
    ensures
        match done {
            Ok(()) => {
                &&& forall|key: Seq<char>|
                    user_vars@.contains_key(key) ==> allowed.deep_view().contains(key)
                &&& final(template_context)@ == old(template_context)@.union_prefer_right(
                    user_vars@,
                )
            },
            Err(e) => {
                &&& final(template_context)@ == old(template_context)@
                &&& e.known.deep_view() == allowed.deep_view()
                &&& e.unknown.deep_view() == keys_of(user_vars.list()).filter(
                    not_among(allowed.deep_view()),
                )
                &&& e.unknown@.len() > 0
                &&& exists|key: Seq<char>|
                    user_vars@.contains_key(key) && !allowed.deep_view().contains(key)
            },
        },
{
    let entries = user_vars.entries();
    let ghost keys = keys_of(entries@);
    let ghost bad = not_among(allowed.deep_view());
    let mut bad_vars: Vec<String> = Vec::new();
    let mut i: usize = 0;
    proof {
        reveal(Seq::filter);
        assert(keys.take(0) =~= Seq::empty());
        assert(bad_vars.deep_view() =~= keys.take(0).filter(bad));
    }
    while i < entries.len()
        invariant
            i <= entries@.len(),
            keys == keys_of(entries@),
            bad == not_among(allowed.deep_view()),
            bad_vars.deep_view() == keys.take(i as int).filter(bad),
            bad_vars@.len() == 0 ==> forall|j: int|
                0 <= j < i ==> allowed.deep_view().contains(#[trigger] keys[j]),
            bad_vars@.len() > 0 ==> exists|j: int|
                0 <= j < i && !allowed.deep_view().contains(#[trigger] keys[j]),
        decreases entries@.len() - i,
    {
        proof {
            assert(keys.take(i as int + 1) =~= keys.take(i as int).push(keys[i as int]));
            keys.take(i as int).lemma_filter_push(keys[i as int], bad);
        }
        if !holds_name(allowed, &entries[i].0) {
            let ghost prior = bad_vars.deep_view();
            bad_vars.push(entries[i].0.clone());
            assert(bad_vars.deep_view() =~= prior.push(keys[i as int]));
            assert(!allowed.deep_view().contains(keys[i as int]));
        }
        i += 1;
    }
    assert(keys.take(i as int) =~= keys);
    if bad_vars.len() > 0 {
        proof {
            let j = choose|j: int|
                0 <= j < entries@.len() && !allowed.deep_view().contains(#[trigger] keys[j]);
            crate::util::map::lemma_entry_in_map(entries@, j);
        }
        return Err(UnknownVariables { unknown: bad_vars, known: clone_strings(allowed) });
    }
    proof {
        assert forall|key: Seq<char>| user_vars@.contains_key(key) implies allowed.deep_view().contains(
            key,
        ) by {
            let j = crate::util::map::index_of_key(entries@, key);
            assert(entries@[j].0@ == key);
            assert(keys[j] == key);
        }
    }
    template_context.extend(user_vars);
    Ok(())
}

/// Names joined by a comma and a blank.
pub open spec fn joined(names: Seq<Seq<char>>) -> Seq<char>
    decreases names.len(),
{
    if names.len() == 0 {
        Seq::empty()
    } else if names.len() == 1 {
        names[0]
    } else {
        joined(names.drop_last()) + seq![',', ' '] + names.last()
    }
}

/// Joins names by a comma and a blank.
pub fn join_names(names: &Vec<String>) -> (text: String)
    ensures
        text@ == joined(names.deep_view()),
{
    let ghost all = names.deep_view();
    let mut text = String::new();
    let mut i: usize = 0;
    proof {
        reveal_strlit(", ");
        assert(", "@ =~= seq![',', ' ']);
        assert(all.take(0) =~= Seq::empty());
    }
    while i < names.len()
        invariant
            i <= names@.len(),
            all == names.deep_view(),
            ", "@ == seq![',', ' '],
            text@ == joined(all.take(i as int)),
        decreases names@.len() - i,
    {
        proof {
            let longer = all.take(i as int + 1);
            assert(longer.drop_last() =~= all.take(i as int));
            assert(longer.last() == all[i as int]);
            if i == 0 {
                assert(longer[0] == all[0]);
            }
        }
        if i > 0 {
            text.append(", ");
        }
        text.append(names[i].as_str());
        proof {
            if i == 0 {
                assert(text@ =~= all[0]);
            }
        }
        i += 1;
    }
    assert(all.take(i as int) =~= all);
    text
}

/// What a failure says of variables that the template does not use: those
/// that are not used, then those that are.
pub open spec fn unknown_message(unknown: Seq<Seq<char>>, known: Seq<Seq<char>>) -> Seq<char> {
    "Some variables aren't available in template: "@ + joined(unknown) + ". Known variables: "@
        + joined(known)
}

/// The failure for variables that the template does not use.
pub fn unknown_variable_error(e: &UnknownVariables) -> (error: PipelineError)
    ensures
        error@ == (PipelineErrorView {
            kind: ErrorKind::UnknownVariable,
            phase: Phase::Variables,
            detail: unknown_message(e.unknown.deep_view(), e.known.deep_view()),
        }),
{
    let mut detail = String::new();
    detail.append("Some variables aren't available in template: ");
    detail.append(join_names(&e.unknown).as_str());
    detail.append(". Known variables: ");
    detail.append(join_names(&e.known).as_str());
    assert(detail@ =~= unknown_message(e.unknown.deep_view(), e.known.deep_view()));
    PipelineError { kind: ErrorKind::UnknownVariable, phase: Phase::Variables, detail }
}

/// Looks up the installed templates that have the name of the request,
/// and its language if it names one. Nothing but a failure of the store
/// makes the lookup fail: on a dependable store with its tables it
/// succeeds.
pub fn get_existing_templates<D: TemplateDb>(app_state: &AppState<D>, cmd: &New) -> (found: Result<
    Vec<TemplateResult>,
    StoreError,
>)
    ensures
        found matches Ok(list) ==> {
            &&& list.deep_view().to_multiset() == app_state.local_db.state().templates.filter(
                cmd.find_params().admitted(),
            ).to_multiset()
            &&& ordered(TemplateOrder::NameAscending, list.deep_view())
        },
        app_state.local_db.dependable() && app_state.local_db.state().schema ==> found is Ok,
{
    let find_params = TemplateFindParams {
        ids: None,
        name: Some(cmd.name.clone()),
        lang: clone_opt_string(&cmd.lang),
        repo: None,
        branch: None,
        subdir: None,
        sha256_hash: None,
    };
    assert(find_params@ == cmd.find_params());
    app_state.local_db.find_templates(find_params)
}

/// A file of the project that is being rendered: its path, and its name
/// without the directories.
#[derive(Debug)]
pub struct ListedFile {
    pub path: String,
    pub name: String,
}

/// The mathematical value of a [`ListedFile`].
pub struct ListedFileView {
    pub path: Seq<char>,
    pub name: Seq<char>,
}

impl View for ListedFile {
    type V = ListedFileView;

    open spec fn view(&self) -> ListedFileView {
        ListedFileView { path: self.path@, name: self.name@ }
    }
}

impl DeepView for ListedFile {
    type V = ListedFileView;

    open spec fn deep_view(&self) -> ListedFileView {
        self@
    }
}

/// How far the making of a project has come.
#[derive(Debug)]
pub enum NewState {
    /// The template is found; its manifest is being read.
    Found { template: TemplateResult },
    /// The variables of the user are split; the files of the template are
    /// being scanned for the variables that they name.
    Scanning { template: TemplateResult, context: StringMap, user_vars: StringMap },
    /// The context is complete; the files of the template are being copied
    /// to the directory in which they are rendered.
    Prepared { template: TemplateResult, context: StringMap },
    /// The files are copied; they are being listed.
    Copied { template: TemplateResult, context: StringMap },
    /// The files before the one at `next` are rendered; that one is being
    /// read. `earlier` holds the names and the sources of those before it.
    Rendering {
        template_name: String,
        files: Vec<ListedFile>,
        next: usize,
        context: StringMap,
        earlier: Vec<(String, String)>,
    },
    /// The file at `next` is rendered; it is being written. `earlier` holds
    /// its name and its source too.
    Writing {
        template_name: String,
        files: Vec<ListedFile>,
        next: usize,
        context: StringMap,
        earlier: Vec<(String, String)>,
    },
    /// All files are rendered; the directory of the project is being
    /// looked at.
    Rendered { template_name: String },
    /// The directory of the project is being created.
    Placing { template_name: String },
    /// The rendered files are being moved to the directory of the project.
    Moving,
    /// The project is in its place.
    Created,
    /// The making of the project failed.
    Failed,
}

/// What happened outside since the last step.
#[derive(Debug)]
pub enum NewEvent {
    /// The template has no manifest.
    ManifestMissing,
    /// The manifest could not be read or understood.
    ManifestUnreadable(String),
    /// The manifest, as it was read.
    ManifestRead(TemplateConfig),
    /// What the walk through the files of the template met.
    ScanFinished(Vec<WalkEntry>),
    /// The directory for rendering could not be prepared.
    WorkDirFailed(String),
    /// The directory for rendering holds a copy of the template.
    WorkDirReady,
    /// The files could not be listed.
    ListFailed(String),
    /// The files in the directory for rendering.
    FilesListed(Vec<ListedFile>),
    /// The file could not be read.
    ReadFailed(String),
    /// The text of the file.
    FileRead(String),
    /// The file could not be written.
    WriteFailed(String),
    /// The file is written.
    FileWritten,
    /// Whether something is at the place of the project.
    ProjectDirProbed { present: bool },
    /// The directory of the project could not be created.
    ProjectDirFailed(String),
    /// The directory of the project is created.
    ProjectDirReady,
    /// The rendered files could not be moved.
    MoveFailed(String),
    /// The rendered files are moved.
    Moved,
}

/// What is to be done outside before the next step.
#[derive(Debug)]
pub enum NewAction {
    /// Read the manifest from the file.
    ReadManifest { file: PathPlan },
    /// Walk through the directory and read every file.
    ScanVariables { dir: PathPlan },
    /// Empty the first directory and copy what is in the second into it.
    PrepareWorkDir { work_dir: PathPlan, from: PathPlan },
    /// List the files under the directory.
    ListFiles { dir: PathPlan },
    /// Read the file at the path.
    ReadFile { path: String },
    /// Write the content to the file at the path.
    WriteFile { path: String, content: String },
    /// See whether something is at the place.
    ProbeProjectDir { dir: PathPlan },
    /// Create the directory, after removing what is there if `replace`
    /// holds.
    CreateProjectDir { dir: PathPlan, replace: bool },
    /// Move the first directory to the place of the second.
    MoveProject { from: PathPlan, to: PathPlan },
    /// Nothing is left to do: where the project is.
    Finish { project_dir: PathPlan },
    /// Nothing can be done any more.
    Fail(PipelineError),
}

/// A step of the making of a project.
#[derive(Debug)]
pub struct NewStep {
    pub state: NewState,
    pub action: NewAction,
}

impl NewStep {
    /// Whether the step is the given failure.
    pub open spec fn fails(self, error: PipelineErrorView) -> bool {
        &&& self.state is Failed
        &&& self.action matches NewAction::Fail(e)
        &&& e@ == error
    }

    /// Whether the step is a failure of the given kind, in the given stage,
    /// with the given words.
    pub open spec fn failed_with(self, kind: ErrorKind, phase: Phase, detail: Seq<char>) -> bool {
        self.fails(PipelineErrorView { kind, phase, detail })
    }

    /// Whether the step is a failure of the given kind.
    pub open spec fn failed(self, kind: ErrorKind) -> bool {
        &&& self.state is Failed
        &&& self.action matches NewAction::Fail(e)
        &&& e.kind == kind
    }

    /// Whether the step is the one that asks for the directory of the
    /// project to be looked at.
    pub open spec fn probes(self, cmd: &New, template_name: Seq<char>) -> bool {
        &&& self.state matches NewState::Rendered { template_name: name }
        &&& name@ == template_name
        &&& self.action matches NewAction::ProbeProjectDir { dir }
        &&& dir@ == project_dir_path(cmd.project_name(), cmd.dir.deep_view())
    }

    /// Whether the step is the one that asks for the file at `next` to be
    /// read.
    pub open spec fn reads(
        self,
        template_name: Seq<char>,
        files: Seq<ListedFileView>,
        next: int,
        context: Map<Seq<char>, Seq<char>>,
        earlier: Seq<(Seq<char>, Seq<char>)>,
    ) -> bool {
        &&& self.state matches NewState::Rendering {
            template_name: name,
            files: listed,
            next: at,
            context: held,
            earlier: before,
        }
        &&& name@ == template_name
        &&& listed.deep_view() == files
        &&& at == next
        &&& held@ == context
        &&& before.deep_view() == earlier
        &&& self.action matches NewAction::ReadFile { path }
        &&& path@ == files[next].path
    }

    /// Whether the step is the one that asks for the template to be copied
    /// to the directory for rendering.
    pub open spec fn prepares(
        self,
        template: TemplateResultView,
        context: Map<Seq<char>, Seq<char>>,
    ) -> bool {
        &&& self.state matches NewState::Prepared { template: t, context: held }
        &&& t@ == template
        &&& held@ == context
        &&& self.action matches NewAction::PrepareWorkDir { work_dir, from }
        &&& work_dir@ == work_dir_path(template.name)
        &&& from@ == given_dir(template.template_dir).join(template.lang)
    }
}

/// A directory that is given as text.
pub open spec fn given_dir(path: Seq<char>) -> PathPlanView {
    PathPlanView::at(PathRootView::Given(path))
}

/// The default variables of a manifest: none where it has no table of
/// variables.
pub open spec fn default_context(config: TemplateConfig) -> Map<Seq<char>, Seq<char>> {
    match config.variables {
        Some(variables) => variables@,
        None => Map::empty(),
    }
}

/// What is chosen from the templates that were found: exactly one must be
/// there, and its manifest is read next. None is a failure that names the
/// template that was asked for; several are a failure that asks for the
/// language.
pub open spec fn template_chosen(
    cmd: &New,
    found: Seq<TemplateResultView>,
    step: NewStep,
) -> bool {
    if found.len() == 0 {
        step.failed_with(ErrorKind::TemplateNotFound, Phase::Lookup, cmd.name@)
    } else if found.len() >= 2 {
        step.failed_with(
            ErrorKind::AmbiguousTemplate,
            Phase::Lookup,
            "Multiple templates found. (You need to provide --lang)"@,
        )
    } else {
        &&& step.state matches NewState::Found { template }
        &&& template@ == found[0]
        &&& step.action matches NewAction::ReadManifest { file }
        &&& file@ == template_config_path(given_dir(found[0].template_dir))
    }
}

/// What the first step of the making of a project does: unless the store
/// fails, the choice among the installed templates that have the name,
/// and the language if one is given.
pub open spec fn new_begins(
    cmd: &New,
    matching: Seq<TemplateResultView>,
    step: NewStep,
) -> bool {
    ||| step.failed(ErrorKind::StoreFailure)
    ||| template_chosen(cmd, matching, step)
}

/// What a step does when the files of the template have been scanned: the
/// first failure of the walk fails the step; else every variable of the
/// user must be named by some file, and the context is extended by them.
pub open spec fn scan_post(
    template: TemplateResultView,
    context: Map<Seq<char>, Seq<char>>,
    user_vars: StringMap,
    entries: Seq<crate::template::static_analysis::WalkEntryView>,
    step: NewStep,
) -> bool {
    if first_failure(entries) < entries.len() {
        ||| failure_of(entries[first_failure(entries)]) matches Some(e) && step.fails(e)
        ||| step.failed(ErrorKind::InvalidPattern)
    } else {
        match all_names(entries) {
            None => step.failed(ErrorKind::InvalidPattern),
            Some(names) => {
                if forall|key: Seq<char>| user_vars@.contains_key(key) ==> names.contains(key) {
                    step.prepares(template, context.union_prefer_right(user_vars@))
                } else {
                    exists|known: Seq<Seq<char>>|
                        #[trigger] is_set_of(known, names) && step.failed_with(
                            ErrorKind::UnknownVariable,
                            Phase::Variables,
                            unknown_message(
                                keys_of(user_vars.list()).filter(not_among(known)),
                                known,
                            ),
                        )
                }
            },
        }
    }
}

/// What a step of the making of a project does, for each state and each
/// event. An event that the state does not wait for is a failure.
pub open spec fn new_post(cmd: &New, state: NewState, event: NewEvent, step: NewStep) -> bool {
    match (state, event) {
        (NewState::Found { template }, NewEvent::ManifestMissing) => step.failed_with(
            ErrorKind::ConfigNotFound,
            Phase::Config,
            "boilermaker.toml"@,
        ),
        (NewState::Found { template }, NewEvent::ManifestUnreadable(said)) => step.failed_with(
            ErrorKind::InvalidManifest,
            Phase::Config,
            said@,
        ),
        (NewState::Found { template }, NewEvent::ManifestRead(config)) => {
            if cmd.vars@.len() == 0 {
                step.prepares(template@, default_context(config))
            } else {
                match pairs_map(cmd.vars.deep_view()) {
                    None => step.failed(ErrorKind::InvalidVariable),
                    Some(given) => {
                        &&& step.state matches NewState::Scanning {
                            template: t,
                            context,
                            user_vars,
                        }
                        &&& t@ == template@
                        &&& context@ == default_context(config)
                        &&& user_vars@ == given
                        &&& step.action matches NewAction::ScanVariables { dir }
                        &&& dir@ == given_dir(template.template_dir@)
                    },
                }
            }
        },
        (
            NewState::Scanning { template, context, user_vars },
            NewEvent::ScanFinished(entries),
        ) => scan_post(template@, context@, user_vars, entries.deep_view(), step),
        (NewState::Prepared { template, context }, NewEvent::WorkDirFailed(said)) => step.failed_with(
            ErrorKind::IoError,
            Phase::Copy,
            said@,
        ),
        (NewState::Prepared { template, context }, NewEvent::WorkDirReady) => {
            &&& step.state matches NewState::Copied { template: t, context: held }
            &&& t@ == template@
            &&& held@ == context@
            &&& step.action matches NewAction::ListFiles { dir }
            &&& dir@ == work_dir_path(template.name@)
        },
        (NewState::Copied { template, context }, NewEvent::ListFailed(said)) => step.failed_with(
            ErrorKind::WalkError,
            Phase::Render,
            said@,
        ),
        (NewState::Copied { template, context }, NewEvent::FilesListed(files)) => {
            if files@.len() == 0 {
                step.probes(cmd, template.name@)
            } else {
                step.reads(template.name@, files.deep_view(), 0, context@, Seq::empty())
            }
        },
        (
            NewState::Rendering { template_name, files, next, context, earlier },
            NewEvent::ReadFailed(said),
        ) => step.failed_with(ErrorKind::IoError, Phase::Render, said@),
        (
            NewState::Rendering { template_name, files, next, context, earlier },
            NewEvent::FileRead(content),
        ) => {
            if next < files@.len() {
                exists|rendered: Result<String, PipelineError>|
                    {
                        &&& #[trigger] rendered_step(
                            template_name@,
                            files.deep_view(),
                            next as int,
                            context@,
                            earlier.deep_view(),
                            content@,
                            rendered,
                            step,
                        )
                        &&& rendered matches Err(e) ==> e@ == render_failure(
                            files@[next as int].name@,
                        )
                    }
            } else {
                step.failed(ErrorKind::UnexpectedEvent)
            }
        },
        (
            NewState::Writing { template_name, files, next, context, earlier },
            NewEvent::WriteFailed(said),
        ) => step.failed_with(ErrorKind::IoError, Phase::Render, said@),
        (
            NewState::Writing { template_name, files, next, context, earlier },
            NewEvent::FileWritten,
        ) => {
            if next + 1 < files@.len() {
                step.reads(
                    template_name@,
                    files.deep_view(),
                    next + 1,
                    context@,
                    earlier.deep_view(),
                )
            } else {
                step.probes(cmd, template_name@)
            }
        },
        (NewState::Rendered { template_name }, NewEvent::ProjectDirProbed { present }) => {
            if present && !cmd.overwrite {
                step.failed(ErrorKind::PathConflict)
            } else {
                &&& step.state matches NewState::Placing { template_name: name }
                &&& name@ == template_name@
                &&& step.action matches NewAction::CreateProjectDir { dir, replace }
                &&& dir@ == project_dir_path(cmd.project_name(), cmd.dir.deep_view())
                &&& replace == present
            }
        },
        (NewState::Placing { template_name }, NewEvent::ProjectDirFailed(said)) => step.failed_with(
            ErrorKind::IoError,
            Phase::Output,
            said@,
        ),
        (NewState::Placing { template_name }, NewEvent::ProjectDirReady) => {
            &&& step.state is Moving
            &&& step.action matches NewAction::MoveProject { from, to }
            &&& from@ == work_dir_path(template_name@)
            &&& to@ == project_dir_path(cmd.project_name(), cmd.dir.deep_view())
        },
        (NewState::Moving, NewEvent::MoveFailed(said)) => step.failed_with(
            ErrorKind::IoError,
            Phase::Output,
            said@,
        ),
        (NewState::Moving, NewEvent::Moved) => {
            &&& step.state is Created
            &&& step.action matches NewAction::Finish { project_dir }
            &&& project_dir@ == project_dir_path(cmd.project_name(), cmd.dir.deep_view())
        },
        _ => step.failed(ErrorKind::UnexpectedEvent),
    }
}

/// A step that fails.
fn fail(kind: ErrorKind, phase: Phase, detail: &str) -> (step: NewStep)
    ensures
        step.failed_with(kind, phase, detail@),
        step.failed(kind),
{
    NewStep { state: NewState::Failed, action: NewAction::Fail(PipelineError::new(kind, phase, detail)) }
}

/// A step that fails with a failure that is at hand.
fn fail_as(error: PipelineError) -> (step: NewStep)
    ensures
        step.fails(error@),
        step.failed(error.kind),
{
    NewStep { state: NewState::Failed, action: NewAction::Fail(error) }
}

/// A step that fails because the event was not waited for.
fn unexpected() -> (step: NewStep)
    ensures
        step.failed(ErrorKind::UnexpectedEvent),
{
    fail(ErrorKind::UnexpectedEvent, Phase::Setup, "unexpected event")
}

/// The step that asks for the template to be copied to the directory for
/// rendering.
fn prepare(template: TemplateResult, context: StringMap) -> (step: NewStep)
    ensures
        step.prepares(template@, context@),
{
    let work_dir = make_work_dir_path(template.name.as_str());
    let from = PathPlan::given(template.template_dir.as_str()).join(template.lang.as_str());
    NewStep {
        state: NewState::Prepared { template, context },
        action: NewAction::PrepareWorkDir { work_dir, from },
    }
}

/// The step that asks for the directory of the project to be looked at.
fn probe(cmd: &New, template_name: String) -> (step: NewStep)
    ensures
        step.probes(cmd, template_name@),
{
    let name = cmd.make_project_name();
    NewStep {
        state: NewState::Rendered { template_name },
        action: NewAction::ProbeProjectDir { dir: make_project_dir_path(name.as_str(), &cmd.dir) },
    }
}

/// The step that asks for the file at `next` to be read.
fn read_next(
    template_name: String,
    files: Vec<ListedFile>,
    next: usize,
    context: StringMap,
    earlier: Vec<(String, String)>,
) -> (step: NewStep)
    requires
        next < files@.len(),
    ensures
        step.reads(
            template_name@,
            files.deep_view(),
            next as int,
            context@,
            earlier.deep_view(),
        ),
{
    let path = files[next].path.clone();
    NewStep {
        state: NewState::Rendering { template_name, files, next, context, earlier },
        action: NewAction::ReadFile { path },
    }
}

/// What follows from the rendering of the file at `next`, whose source is
/// `content`: the text that was rendered is to be written to the file, and
/// the name and the source of the file join those that were rendered
/// before; a failure of the rendering fails the step.
pub open spec fn rendered_step(
    template_name: Seq<char>,
    files: Seq<ListedFileView>,
    next: int,
    context: Map<Seq<char>, Seq<char>>,
    earlier: Seq<(Seq<char>, Seq<char>)>,
    content: Seq<char>,
    rendered: Result<String, PipelineError>,
    step: NewStep,
) -> bool {
    match rendered {
        Ok(text) => {
            &&& step.state matches NewState::Writing {
                template_name: name,
                files: listed,
                next: at,
                context: held,
                earlier: before,
            }
            &&& name@ == template_name
            &&& listed.deep_view() == files
            &&& at == next
            &&& held@ == context
            &&& before.deep_view() == earlier.push((files[next].name, content))
            &&& step.action matches NewAction::WriteFile { path, content: written }
            &&& path@ == files[next].path
            &&& written@ == text@
        },
        Err(e) => step.fails(e@),
    }
}

/// Goes on from the rendering of the file at `next`: its text is to be
/// written, or the failure of the rendering is the failure of the step.
pub fn write_rendered(
    template_name: String,
    files: Vec<ListedFile>,
    next: usize,
    context: StringMap,
    earlier: Vec<(String, String)>,
    content: String,
    rendered: Result<String, PipelineError>,
) -> (step: NewStep)
    ensures
        next < files@.len() ==> rendered_step(
            template_name@,
            files.deep_view(),
            next as int,
            context@,
            earlier.deep_view(),
            content@,
            rendered,
            step,
        ),
        next >= files@.len() ==> step.failed(ErrorKind::UnexpectedEvent),
{
    if next >= files.len() {
        return unexpected();
    }
    match rendered {
        Ok(text) => {
            let path = files[next].path.clone();
            let ghost before = earlier.deep_view();
            let mut earlier = earlier;
            earlier.push((files[next].name.clone(), content));
            assert(earlier.deep_view() =~= before.push((files@[next as int].name@, content@)));
            NewStep {
                state: NewState::Writing { template_name, files, next, context, earlier },
                action: NewAction::WriteFile { path, content: text },
            }
        },
        Err(e) => fail_as(e),
    }
}

/// Chooses the template of a project from those that the store found: the
/// one that was found, if it is one. None and several are failures.
pub fn choose_template(cmd: &New, found: Vec<TemplateResult>) -> (step: NewStep)
    ensures
        template_chosen(cmd, found.deep_view(), step),
{
    let mut found = found;
    if found.len() == 0 {
        return fail(ErrorKind::TemplateNotFound, Phase::Lookup, cmd.name.as_str());
    }
    if found.len() >= 2 {
        return fail(
            ErrorKind::AmbiguousTemplate,
            Phase::Lookup,
            "Multiple templates found. (You need to provide --lang)",
        );
    }
    let template = found.remove(0);
    let file = get_template_config_path(PathPlan::given(template.template_dir.as_str()));
    NewStep { state: NewState::Found { template }, action: NewAction::ReadManifest { file } }
}

/// Begins the making of a project: looks up the template and chooses it.
/// Nothing but a failure of the store keeps it from the choice: on a
/// dependable store with its tables, no match is a template that is not
/// found, several matches are ambiguous, and one match is the template.
pub fn begin_new<D: TemplateDb>(app_state: &AppState<D>, cmd: &New) -> (step: NewStep)
    ensures
        new_begins(
            cmd,
            app_state.local_db.state().templates.filter(cmd.find_params().admitted()),
            step,
        ),
        app_state.local_db.dependable() && app_state.local_db.state().schema ==> template_chosen(
            cmd,
            app_state.local_db.state().templates.filter(cmd.find_params().admitted()),
            step,
        ),
{
    let ghost matching = app_state.local_db.state().templates.filter(cmd.find_params().admitted());
    let existing = match get_existing_templates(app_state, cmd) {
        Ok(existing) => existing,
        Err(e) => {
            let said = e.message();
            return fail(ErrorKind::StoreFailure, Phase::Lookup, said.as_str());
        },
    };
    proof {
        let list = existing.deep_view();
        vstd::seq_lib::to_multiset_len(list);
        vstd::seq_lib::to_multiset_len(matching);
        if list.len() == 1 {
            vstd::seq_lib::to_multiset_contains(list, list[0]);
            vstd::seq_lib::to_multiset_contains(matching, list[0]);
            assert(list.contains(list[0]));
            assert(matching.contains(list[0]));
        }
    }
    choose_template(cmd, existing)
}

/// Takes the making of a project one step further: from the state that it
/// is in and from what happened outside, to the next state and to what is
/// to be done outside next.
pub fn new(cmd: &New, state: NewState, event: NewEvent) -> (step: NewStep)
    ensures
        new_post(cmd, state, event, step),
{
    match (state, event) {
        (NewState::Found { template }, NewEvent::ManifestMissing) => fail(
            ErrorKind::ConfigNotFound,
            Phase::Config,
            "boilermaker.toml",
        ),
        (NewState::Found { template }, NewEvent::ManifestUnreadable(said)) => fail(
            ErrorKind::InvalidManifest,
            Phase::Config,
            said.as_str(),
        ),
        (NewState::Found { template }, NewEvent::ManifestRead(config)) => {
            let context = match &config.variables {
                Some(variables) => variables.as_map().clone(),
                None => StringMap::new(),
            };
            if cmd.vars.len() == 0 {
                return prepare(template, context);
            }
            let user_vars = match vec_to_hashmap(&cmd.vars) {
                Ok(user_vars) => user_vars,
                Err(e) => {
                    return fail_as(e);
                },
            };
            let dir = PathPlan::given(template.template_dir.as_str());
            NewStep {
                state: NewState::Scanning { template, context, user_vars },
                action: NewAction::ScanVariables { dir },
            }
        },
        (NewState::Scanning { template, context, user_vars }, NewEvent::ScanFinished(entries)) => {
            let allowed = match find_variables_in_path(&entries) {
                Ok(allowed) => allowed,
                Err(e) => {
                    proof {
                        if e.kind == ErrorKind::InvalidPattern {
                            lemma_rejected_pattern(entries.deep_view());
                        }
                    }
                    return fail_as(e);
                },
            };
            let mut context = context;
            match extend_template_context(&mut context, &allowed, &user_vars) {
                Ok(()) => prepare(template, context),
                Err(e) => {
                    let error = unknown_variable_error(&e);
                    proof {
                        let names = all_names(entries.deep_view())->0;
                        assert(is_set_of(allowed.deep_view(), names));
                    }
                    fail_as(error)
                },
            }
        },
        (NewState::Prepared { template, context }, NewEvent::WorkDirFailed(said)) => fail(
            ErrorKind::IoError,
            Phase::Copy,
            said.as_str(),
        ),
        (NewState::Prepared { template, context }, NewEvent::WorkDirReady) => {
            let dir = make_work_dir_path(template.name.as_str());
            NewStep {
                state: NewState::Copied { template, context },
                action: NewAction::ListFiles { dir },
            }
        },
        (NewState::Copied { template, context }, NewEvent::ListFailed(said)) => fail(
            ErrorKind::WalkError,
            Phase::Render,
            said.as_str(),
        ),
        (NewState::Copied { template, context }, NewEvent::FilesListed(files)) => {
            if files.len() == 0 {
                probe(cmd, template.name)
            } else {
                let earlier: Vec<(String, String)> = Vec::new();
                assert(earlier.deep_view() =~= Seq::empty());
                read_next(template.name, files, 0, context, earlier)
            }
        },
        (
            NewState::Rendering { template_name, files, next, context, earlier },
            NewEvent::ReadFailed(said),
        ) => fail(ErrorKind::IoError, Phase::Render, said.as_str()),
        (
            NewState::Rendering { template_name, files, next, context, earlier },
            NewEvent::FileRead(content),
        ) => {
            if next >= files.len() {
                return unexpected();
            }
            let rendered = render_template_files(
                &earlier,
                files[next].name.as_str(),
                content.as_str(),
                &context,
            );
            write_rendered(template_name, files, next, context, earlier, content, rendered)
        },
        (
            NewState::Writing { template_name, files, next, context, earlier },
            NewEvent::WriteFailed(said),
        ) => fail(ErrorKind::IoError, Phase::Render, said.as_str()),
        (
            NewState::Writing { template_name, files, next, context, earlier },
            NewEvent::FileWritten,
        ) => {
            if next < files.len() && next + 1 < files.len() {
                read_next(template_name, files, next + 1, context, earlier)
            } else {
                probe(cmd, template_name)
            }
        },
        (NewState::Rendered { template_name }, NewEvent::ProjectDirProbed { present }) => {
            let name = cmd.make_project_name();
            match create_project_dir(name.as_str(), &cmd.dir, cmd.overwrite, present) {
                Ok(project) => NewStep {
                    state: NewState::Placing { template_name },
                    action: NewAction::CreateProjectDir {
                        dir: project.path,
                        replace: project.replace,
                    },
                },
                Err(e) => fail_as(e),
            }
        },
        (NewState::Placing { template_name }, NewEvent::ProjectDirFailed(said)) => fail(
            ErrorKind::IoError,
            Phase::Output,
            said.as_str(),
        ),
        (NewState::Placing { template_name }, NewEvent::ProjectDirReady) => {
            let name = cmd.make_project_name();
            NewStep {
                state: NewState::Moving,
                action: NewAction::MoveProject {
                    from: make_work_dir_path(template_name.as_str()),
                    to: make_project_dir_path(name.as_str(), &cmd.dir),
                },
            }
        },
        (NewState::Moving, NewEvent::MoveFailed(said)) => fail(
            ErrorKind::IoError,
            Phase::Output,
            said.as_str(),
        ),
        (NewState::Moving, NewEvent::Moved) => {
            let name = cmd.make_project_name();
            NewStep {
                state: NewState::Created,
                action: NewAction::Finish {
                    project_dir: make_project_dir_path(name.as_str(), &cmd.dir),
                },
            }
        },
        _ => unexpected(),
    }
}

/// Where the pattern is refused for a file among the first entries of a
/// walk, it is refused for the walk.
pub proof fn lemma_rejected_pattern(entries: Seq<crate::template::static_analysis::WalkEntryView>)
    requires
        exists|n: int| 0 <= n <= entries.len() && all_names(#[trigger] entries.take(n)) is None,
    ensures
        all_names(entries) is None,
{
    let n = choose|n: int| 0 <= n <= entries.len() && all_names(#[trigger] entries.take(n)) is None;
    lemma_rejection_stays(entries, n, entries.len() as int);
    assert(entries.take(entries.len() as int) =~= entries);
}

/// Where the pattern is refused among the first `n` entries, it is refused
/// among the first `m`, for every `m` from `n` on.
pub proof fn lemma_rejection_stays(
    entries: Seq<crate::template::static_analysis::WalkEntryView>,
    n: int,
    m: int,
)
    requires
        0 <= n <= m <= entries.len(),
        all_names(entries.take(n)) is None,
    ensures
        all_names(entries.take(m)) is None,
    decreases m - n,
{
    if n < m {
        lemma_rejection_stays(entries, n, m - 1);
        assert(entries.take(m).drop_last() =~= entries.take(m - 1));
    }
}

} // verus!
