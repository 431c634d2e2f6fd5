//! Installing a template: clone, check the manifest, register, copy, index.

use crate::config::TemplateConfig;
use crate::db::local_db::{
    files_of, pair_files, records_of, store_error_text, CacheState, CacheView, StoreError,
    TemplateDb,
};
use crate::db::template::{
    TemplateMethods, TemplateResult, TemplateResultView, TemplateRow, TemplateRowView,
};
use crate::error::{ErrorKind, Phase, PipelineError, PipelineErrorView};
use crate::state::AppState;
use crate::template::{
    get_lang, get_template_config_path, get_template_dir_path, make_name_from_url,
    make_tmp_dir_from_url, name_from_url, resolved_lang, template_config_path, template_dir_path,
    tmp_dir_from_url, CloneContext,
};
use crate::util::file::{
    payload_paths, list_template_files, PathPlan, PathPlanView, PathRootView,
};
use crate::util::string::{clone_opt_string, clone_strings};
use vstd::prelude::*;
use vstd::string::StringExecFns;

verus! {

/// Whether no two templates of a list share name, lang and repo.
pub open spec fn unique_identities(list: Seq<TemplateResultView>) -> bool {
    forall|i: int, j: int|
        0 <= i < j < list.len() ==> !(#[trigger] list[i]).same_identity((#[trigger] list[j]).row())
}

/// Whether exactly one template of a list has the name, lang and repo of
/// `row`.
pub open spec fn holds_once(list: Seq<TemplateResultView>, row: TemplateRowView) -> bool {
    exists|i: int|
        0 <= i < list.len() && (#[trigger] list[i]).same_identity(row) && forall|j: int|
            0 <= j < list.len() && j != i ==> !(#[trigger] list[j]).same_identity(row)
}

/// What is to be done about a template that is to be installed.
#[derive(Debug, Clone, Copy, PartialEq, Eq, Structural)]
pub enum RegistrationPlan {
    /// It is installed and its directory is there: nothing is to be done.
    Duplicate,
    /// It is installed, but its directory is gone: the row with this id is
    /// stale and is removed before the template is installed anew.
    Heal(i64),
    /// It is not installed: it is added.
    Create,
}

/// Decides what is to be done, from the row that the store found for the
/// identity of the template, if any, and from whether the directory of the
/// template is there.
pub fn plan_registration(found: &Option<TemplateResult>, dir_present: bool) -> (plan:
    RegistrationPlan)
    ensures
        found is None ==> plan == RegistrationPlan::Create,
        found is Some && dir_present ==> plan == RegistrationPlan::Duplicate,
        found matches Some(t) ==> (!dir_present ==> plan == RegistrationPlan::Heal(t.id)),
{
    match found {
        None => RegistrationPlan::Create,
        Some(t) => if dir_present {
            RegistrationPlan::Duplicate
        } else {
            RegistrationPlan::Heal(t.id)
        },
    }
}

/// How a registration ended.
#[derive(Debug)]
pub enum Registration {
    /// The template is installed already: the row that was found.
    Duplicate(TemplateResult),
    /// The template was added under `id`. Where a stale row of the same
    /// identity was removed before, `healed` holds its id.
    Registered { id: i64, healed: Option<i64> },
}

/// Whether a template with the id has the identity of `row`.
pub open spec fn stale_row(state: CacheView, stale: i64, row: TemplateRowView) -> bool {
    exists|i: int|
        0 <= i < state.templates.len() && (#[trigger] state.templates[i]).id == stale
            && state.templates[i].same_identity(row)
}

/// What a registration does to the store. The tables are created first
/// where they are missing. A template that is found with its directory is
/// a duplicate, and nothing changes. One that is found without its
/// directory is removed, and the template is added anew. One that is not
/// found is added. Where the store fails, the template is not added.
pub open spec fn registration_post(
    before: CacheView,
    row: TemplateRowView,
    dir_present: bool,
    now: i32,
    outcome: Result<Registration, StoreError>,
    after: CacheView,
) -> bool {
    let base = before.with_schema();
    match outcome {
        Ok(Registration::Duplicate(t)) => {
            &&& dir_present
            &&& base.templates.contains(t@)
            &&& t@.same_identity(row)
            &&& after == base
        },
        Ok(Registration::Registered { id, healed: None }) => {
            &&& !base.has_identity(row)
            &&& !base.has_template(id)
            &&& after == base.with_template(row.stored(id, now))
        },
        Ok(Registration::Registered { id, healed: Some(stale) }) => {
            &&& !dir_present
            &&& stale_row(base, stale, row)
            &&& !base.without_template(stale).has_template(id)
            &&& after == base.without_template(stale).with_template(row.stored(id, now))
        },
        Err(_) => {
            ||| after == before
            ||| after == base
            ||| exists|stale: i64|
                !dir_present && stale_row(base, stale, row) && after == #[trigger] base.without_template(
                    stale,
                )
        },
    }
}

/// Registers a template with the store: creates the tables where they are
/// missing, looks for a template of the same name, lang and repo, and adds
/// the row unless that template is there with its directory. Nothing but
/// a failure of the store makes it fail: on a dependable store with room
/// for one more row it succeeds, and it takes no more room than that row.
pub fn register_template<D: TemplateDb>(
    db: &mut D,
    row: TemplateRow,
    dir_present: bool,
    now: i32,
) -> (outcome: Result<Registration, StoreError>)
    ensures
        registration_post(old(db).state(), row@, dir_present, now, outcome, final(db).state()),
        old(db).dependable() && old(db).room() >= 1 ==> outcome is Ok,
        final(db).dependable() == old(db).dependable(),
        final(db).room() + 1 >= old(db).room(),
        outcome matches Ok(Registration::Duplicate(_)) ==> final(db).room() >= old(db).room(),
        old(db).state().ids_distinct() ==> final(db).state().ids_distinct(),
{
    let tables = match db.template_table_exists() {
        Ok(tables) => tables,
        Err(e) => {
            return Err(e);
        },
    };
    if !tables {
        match db.create_schema() {
            Ok(()) => {},
            Err(e) => {
                return Err(e);
            },
        }
    }
    let ghost base = db.state();
    assert(base == old(db).state().with_schema());
    let found = match db.check_unique(&row) {
        Ok(found) => found,
        Err(e) => {
            return Err(e);
        },
    };
    match plan_registration(&found, dir_present) {
        RegistrationPlan::Duplicate => match found {
            Some(t) => Ok(Registration::Duplicate(t)),
            None => Err(StoreError::NotFound),
        },
        RegistrationPlan::Heal(stale) => {
            proof {
                let t = found->0;
                let i = choose|i: int| 0 <= i < base.templates.len() && base.templates[i] == t@;
                assert(base.templates[i].id == stale);
            }
            match db.delete_template(stale) {
                Ok(_) => {},
                Err(e) => {
                    return Err(e);
                },
            }
            match db.create_template(row, now) {
                Ok(id) => Ok(Registration::Registered { id, healed: Some(stale) }),
                Err(e) => Err(e),
            }
        },
        RegistrationPlan::Create => match db.create_template(row, now) {
            Ok(id) => Ok(Registration::Registered { id, healed: None }),
            Err(e) => Err(e),
        },
    }
}

/// Removing templates from a list with distinct identities leaves the
/// identities distinct.
pub proof fn lemma_filter_keeps_unique(
    list: Seq<TemplateResultView>,
    pred: spec_fn(TemplateResultView) -> bool,
)
    requires
        unique_identities(list),
    ensures
        unique_identities(list.filter(pred)),
    decreases list.len(),
{
    reveal(Seq::filter);
    if list.len() > 0 {
        let rest = list.drop_last();
        assert(unique_identities(rest)) by {
            assert forall|i: int, j: int| 0 <= i < j < rest.len() implies !(
            #[trigger] rest[i]).same_identity((#[trigger] rest[j]).row()) by {
                assert(!list[i].same_identity(list[j].row()));
            }
        }
        lemma_filter_keeps_unique(rest, pred);
        if pred(list.last()) {
            let kept = rest.filter(pred);
            let whole = kept.push(list.last());
            assert forall|i: int, j: int| 0 <= i < j < whole.len() implies !(
            #[trigger] whole[i]).same_identity((#[trigger] whole[j]).row()) by {
                if j < kept.len() {
                    assert(!kept[i].same_identity(kept[j].row()));
                } else {
                    assert(kept.contains(kept[i]));
                    rest.lemma_filter_contains_rev(pred, kept[i]);
                    let w = choose|w: int| 0 <= w < rest.len() && rest[w] == kept[i];
                    assert(!list[w].same_identity(list[list.len() - 1].row()));
                }
            }
        }
    }
}

/// A registration keeps the identities of the installed templates
/// distinct, and where it does not fail, the store holds the template
/// exactly once afterwards.
pub proof fn lemma_registration_enforces_uniqueness(
    before: CacheView,
    row: TemplateRowView,
    dir_present: bool,
    now: i32,
    outcome: Result<Registration, StoreError>,
    after: CacheView,
)
    requires
        registration_post(before, row, dir_present, now, outcome, after),
        unique_identities(before.templates),
    ensures
        unique_identities(after.templates),
        outcome is Ok ==> holds_once(after.templates, row),
{
    let base = before.with_schema();
    match outcome {
        Ok(Registration::Duplicate(t)) => {
            let i = choose|i: int| 0 <= i < base.templates.len() && base.templates[i] == t@;
            assert(base.templates[i].same_identity(row));
            assert forall|j: int| 0 <= j < base.templates.len() && j != i implies !(
            #[trigger] base.templates[j]).same_identity(row) by {
                if j < i {
                    assert(!base.templates[j].same_identity(base.templates[i].row()));
                } else {
                    assert(!base.templates[i].same_identity(base.templates[j].row()));
                }
            }
        },
        Ok(Registration::Registered { id, healed: None }) => {
            let added = row.stored(id, now);
            lemma_added_once(base.templates, row, added);
        },
        Ok(Registration::Registered { id, healed: Some(stale) }) => {
            let added = row.stored(id, now);
            let kept = base.templates.filter(crate::db::local_db::other_than(stale));
            lemma_filter_keeps_unique(base.templates, crate::db::local_db::other_than(stale));
            lemma_healed_has_none(base.templates, stale, row);
            lemma_added_once(kept, row, added);
        },
        Err(_) => {
            if after != before && after != base {
                let stale = choose|stale: i64|
                    !dir_present && stale_row(base, stale, row) && after == #[trigger] base.without_template(
                        stale,
                    );
                lemma_filter_keeps_unique(base.templates, crate::db::local_db::other_than(stale));
            }
        },
    }
}

/// Adding a template to a list with distinct identities that holds none of
/// its identity gives a list with distinct identities that holds it once.
pub proof fn lemma_added_once(
    list: Seq<TemplateResultView>,
    row: TemplateRowView,
    added: TemplateResultView,
)
    requires
        unique_identities(list),
        added.same_identity(row),
        forall|i: int| 0 <= i < list.len() ==> !(#[trigger] list[i]).same_identity(row),
    ensures
        unique_identities(list.push(added)),
        holds_once(list.push(added), row),
{
    let longer = list.push(added);
    assert forall|i: int, j: int| 0 <= i < j < longer.len() implies !(
    #[trigger] longer[i]).same_identity((#[trigger] longer[j]).row()) by {
        if j < list.len() {
            assert(!list[i].same_identity(list[j].row()));
        } else {
            assert(!list[i].same_identity(row));
        }
    }
    let at = list.len() as int;
    assert(longer[at].same_identity(row));
    assert forall|j: int| 0 <= j < longer.len() && j != at implies !(
    #[trigger] longer[j]).same_identity(row) by {
        assert(!list[j].same_identity(row));
    }
}

/// In a list with distinct identities, removing the template with the id
/// of a stale row removes every template of its identity.
pub proof fn lemma_healed_has_none(list: Seq<TemplateResultView>, stale: i64, row: TemplateRowView)
    requires
        unique_identities(list),
        exists|i: int|
            0 <= i < list.len() && (#[trigger] list[i]).id == stale && list[i].same_identity(row),
    ensures
        forall|k: int|
            0 <= k < list.filter(crate::db::local_db::other_than(stale)).len() ==> !(
            #[trigger] list.filter(crate::db::local_db::other_than(stale))[k]).same_identity(row),
{
    let pred = crate::db::local_db::other_than(stale);
    let kept = list.filter(pred);
    let i = choose|i: int|
        0 <= i < list.len() && (#[trigger] list[i]).id == stale && list[i].same_identity(row);
    assert forall|k: int| 0 <= k < kept.len() implies !(#[trigger] kept[k]).same_identity(row) by {
        list.lemma_filter_pred(pred, k);
        assert(kept.contains(kept[k]));
        list.lemma_filter_contains_rev(pred, kept[k]);
        let w = choose|w: int| 0 <= w < list.len() && list[w] == kept[k];
        assert(list[w].id != stale);
        if kept[k].same_identity(row) {
            if w < i {
                assert(!list[w].same_identity(list[i].row()));
            } else {
                assert(!list[i].same_identity(list[w].row()));
            }
        }
    }
}

/// Installing a template twice, with its directory in place after the
/// first time: the second time is a duplicate, nothing is added and
/// nothing is removed, and the store holds the template exactly once.
pub proof fn lemma_install_twice(
    before: CacheView,
    row: TemplateRowView,
    dir_present: bool,
    first_time: i32,
    first: Result<Registration, StoreError>,
    between: CacheView,
    again: TemplateRowView,
    second_time: i32,
    second: Result<Registration, StoreError>,
    after: CacheView,
)
    requires
        unique_identities(before.templates),
        registration_post(before, row, dir_present, first_time, first, between),
        first matches Ok(Registration::Registered { .. }),
        again.name == row.name,
        again.lang == row.lang,
        again.repo == row.repo,
        registration_post(between, again, true, second_time, second, after),
        second is Ok,
    ensures
        second matches Ok(Registration::Duplicate(_)),
        after == between,
        holds_once(after.templates, row),
        unique_identities(after.templates),
{
    lemma_registration_enforces_uniqueness(before, row, dir_present, first_time, first, between);
    let i = choose|i: int|
        0 <= i < between.templates.len() && (#[trigger] between.templates[i]).same_identity(row);
    assert(between.templates[i].same_identity(again));
    assert(between.has_identity(again));
    assert(between.with_schema() == between);
}

/// A template that is installed, but whose directory is gone, is installed
/// anew: the stale row is removed, and the store holds the template exactly
/// once afterwards.
pub proof fn lemma_reinstall_heals(
    before: CacheView,
    row: TemplateRowView,
    now: i32,
    outcome: Result<Registration, StoreError>,
    after: CacheView,
)
    requires
        registration_post(before, row, false, now, outcome, after),
        unique_identities(before.templates),
        before.has_identity(row),
        outcome is Ok,
    ensures
        outcome matches Ok(Registration::Registered { healed: Some(_), .. }),
        holds_once(after.templates, row),
        unique_identities(after.templates),
{
    lemma_registration_enforces_uniqueness(before, row, false, now, outcome, after);
}

/// The request to install a template.
#[derive(Debug)]
pub struct Install {
    pub template: String,
    pub name: Option<String>,
    pub lang: Option<String>,
    pub branch: Option<String>,
    pub subdir: Option<String>,
}

impl Install {
    /// The name of the template: the one that was asked for, else the one
    /// that the URL gives.
    pub open spec fn resolved_name(&self) -> Seq<char> {
        match self.name {
            Some(name) => name@,
            None => name_from_url(self.template@),
        }
    }

    /// The directory into which the repository is cloned.
    pub open spec fn clone_dir(&self) -> PathPlanView {
        tmp_dir_from_url(self.template@)
    }

    /// The directory of the template within the clone.
    pub open spec fn work_dir(&self) -> PathPlanView {
        self.clone_dir().join_optional(self.subdir.deep_view())
    }

    /// The row of the template, for a language and a directory.
    pub open spec fn row(&self, lang: Seq<char>, template_dir: Seq<char>) -> TemplateRowView {
        TemplateRowView {
            name: self.resolved_name(),
            lang,
            template_dir,
            repo: self.template@,
            branch: self.branch.deep_view(),
            subdir: self.subdir.deep_view(),
            sha256_hash: None,
        }.with_digest()
    }

    /// The name of the template.
    pub fn name(&self) -> (name: String)
        ensures
            name@ == self.resolved_name(),
    {
        match &self.name {
            Some(name) => name.clone(),
            None => make_name_from_url(self.template.as_str()),
        }
    }

    /// Whether a request to clone is the one that this installation makes:
    /// the repository of the template, at the branch that was asked for,
    /// into the directory that the URL names.
    pub open spec fn clones(&self, ctx: CloneContext) -> bool {
        &&& ctx.url@ == self.template@
        &&& ctx.branch.deep_view() == self.branch.deep_view()
        &&& ctx.dest matches Some(dir)
        &&& dir@ == self.clone_dir()
    }

    /// The request to clone the repository of the template.
    pub fn clone_context(&self) -> (ctx: CloneContext)
        ensures
            self.clones(ctx),
    {
        CloneContext {
            url: self.template.clone(),
            branch: clone_opt_string(&self.branch),
            dest: Some(make_tmp_dir_from_url(self.template.as_str())),
        }
    }

    /// Plans the directory of the template within the clone.
    pub fn plan_work_dir(&self) -> (dir: PathPlan)
        ensures
            dir@ == self.work_dir(),
    {
        make_tmp_dir_from_url(self.template.as_str()).join_optional(&self.subdir)
    }

    /// Makes the row of the template, with its digest.
    pub fn make_row(&self, lang: &String, template_dir: &String) -> (row: TemplateRow)
        ensures
            row@ == self.row(lang@, template_dir@),
    {
        TemplateRow {
            name: self.name(),
            lang: lang.clone(),
            template_dir: template_dir.clone(),
            repo: self.template.clone(),
            branch: clone_opt_string(&self.branch),
            subdir: clone_opt_string(&self.subdir),
            sha256_hash: None,
        }.set_hash_string()
    }
}

/// How far an installation has come.
#[derive(Debug)]
pub enum InstallState {
    /// Nothing has been done; the repository is being cloned.
    Requested,
    /// The repository is cloned; its manifest is being read.
    Cloned,
    /// The manifest is read and the language is known; the directory of
    /// the template is being looked at.
    ConfigValidated { lang: String },
    /// No other template has the identity, and the template has its row;
    /// its files are being copied.
    Registered { id: i64, template_dir: String },
    /// The files are copied; they are being listed.
    Copied { id: i64, template_dir: String },
    /// The files are listed; those of the payload are being read.
    Listed { id: i64, template_dir: String, paths: Vec<String> },
    /// The files are indexed; the files of the version control are being
    /// removed.
    Indexed { id: i64, template_dir: String },
    /// The template is installed.
    CleanedUp { id: i64 },
    /// The template was installed before, and nothing was done.
    Duplicate,
    /// The installation failed.
    Failed,
}

/// What happened outside since the last step.
#[derive(Debug)]
pub enum InstallEvent {
    /// The directory to clone into could not be cleared.
    SetupFailed(String),
    /// The repository could not be cloned.
    CloneFailed(String),
    /// The repository is cloned.
    CloneFinished,
    /// The clone holds no manifest.
    ManifestMissing,
    /// The manifest could not be read or understood.
    ManifestUnreadable(String),
    /// The manifest, as it was read.
    ManifestRead(TemplateConfig),
    /// The directory of the template: its path, if there is a home
    /// directory, and whether something is there.
    TemplateDirProbed { path: Option<String>, present: bool },
    /// The files could not be copied.
    CopyFailed(String),
    /// The files are copied.
    CopyFinished,
    /// The files could not be listed.
    ListFailed(String),
    /// The paths of the files in the directory of the template.
    FilesListed(Vec<String>),
    /// A file could not be read.
    ReadFailed(String),
    /// The contents of the files that were to be read, in their order.
    FilesRead(Vec<String>),
    /// The files of the version control could not be removed.
    CleanupFailed(String),
    /// The files of the version control are removed.
    GitDirRemoved,
}

/// How an installation ended.
#[derive(Debug)]
pub enum InstallOutcome {
    /// The template is installed under the id.
    Installed { id: i64 },
    /// A template with this name, lang and repo was installed before.
    Duplicate { name: String, lang: String, repo: String },
}

impl InstallOutcome {
    /// What is reported of the outcome: nothing where the template was
    /// installed, and a duplicate, which is no failure of the command,
    /// where it was installed before.
    pub fn report(&self) -> (said: Option<PipelineError>)
        ensures
            self is Installed ==> said is None,
            self matches InstallOutcome::Duplicate { name, lang, repo } ==> said matches Some(e)
                && e@ == (PipelineErrorView {
                kind: ErrorKind::DuplicateTemplate,
                phase: Phase::Lookup,
                detail: name@ + seq![',', ' '] + lang@ + seq![',', ' '] + repo@,
            }),
    {
        match self {
            InstallOutcome::Installed { id } => None,
            InstallOutcome::Duplicate { name, lang, repo } => {
                proof {
                    reveal_strlit(", ");
                    assert(", "@ =~= seq![',', ' ']);
                }
                let mut detail = name.clone();
                detail.append(", ");
                detail.append(lang.as_str());
                detail.append(", ");
                detail.append(repo.as_str());
                Some(
                    PipelineError {
                        kind: ErrorKind::DuplicateTemplate,
                        phase: Phase::Lookup,
                        detail,
                    },
                )
            },
        }
    }
}

/// What is to be done outside before the next step.
#[derive(Debug)]
pub enum InstallAction {
    /// Clear the directory and clone the repository into it.
    Clone(CloneContext),
    /// Read the manifest from the file.
    ReadManifest { file: PathPlan },
    /// Resolve the directory of the template and see whether it is there.
    ProbeTemplateDir { dir: PathPlan },
    /// Copy what is in one directory into the other, which must not be
    /// there yet.
    CopyTemplate { from: PathPlan, to: PathPlan },
    /// List the files under the directory.
    ListFiles { dir: PathPlan },
    /// Read the files at the paths.
    ReadFiles { paths: Vec<String> },
    /// Remove the files of the version control from the directory.
    RemoveGitDir { dir: PathPlan },
    /// Nothing is left to do.
    Finish(InstallOutcome),
    /// Nothing can be done any more.
    Fail(PipelineError),
}

/// A step of an installation: the state that is reached, and what is to be
/// done next.
#[derive(Debug)]
pub struct InstallStep {
    pub state: InstallState,
    pub action: InstallAction,
}

impl InstallStep {
    /// Whether the step is a failure of the given kind, in the given stage,
    /// with the given words.
    pub open spec fn failed_with(self, kind: ErrorKind, phase: Phase, detail: Seq<char>) -> bool {
        &&& self.state is Failed
        &&& self.action matches InstallAction::Fail(e)
        &&& e@ == (PipelineErrorView { kind, phase, detail })
    }

    /// Whether the step is a failure of the given kind.
    pub open spec fn failed(self, kind: ErrorKind) -> bool {
        &&& self.state is Failed
        &&& self.action matches InstallAction::Fail(e)
        &&& e.kind == kind
    }
}

/// A path that is given as text.
pub open spec fn given_path(path: Seq<char>) -> PathPlanView {
    PathPlanView::at(PathRootView::Given(path))
}

/// The first step of an installation: the repository is to be cloned into
/// the directory that its URL names.
pub open spec fn install_begins(cmd: &Install, step: InstallStep) -> bool {
    &&& step.state is Requested
    &&& step.action matches InstallAction::Clone(ctx)
    &&& cmd.clones(ctx)
}

/// What a step does that needs the store: the registration of the
/// template once its directory has been looked at.
pub open spec fn registers(
    cmd: &Install,
    lang: Seq<char>,
    path: Seq<char>,
    dir_present: bool,
    now: i32,
    before: CacheView,
    step: InstallStep,
    after: CacheView,
) -> bool {
    exists|outcome: Result<Registration, StoreError>|
        {
            &&& #[trigger] registration_post(
                before,
                cmd.row(lang, path),
                dir_present,
                now,
                outcome,
                after,
            )
            &&& match outcome {
                Ok(Registration::Duplicate(t)) => {
                    &&& step.state is Duplicate
                    &&& step.action matches InstallAction::Finish(
                        InstallOutcome::Duplicate { name, lang, repo },
                    )
                    &&& name@ == t.name@
                    &&& lang@ == t.lang@
                    &&& repo@ == t.repo@
                },
                Ok(Registration::Registered { id, healed }) => {
                    &&& step.state matches InstallState::Registered { id: got, template_dir }
                    &&& got == id
                    &&& template_dir@ == path
                    &&& step.action matches InstallAction::CopyTemplate { from, to }
                    &&& from@ == cmd.work_dir()
                    &&& to@ == given_path(path)
                },
                Err(e) => step.failed_with(
                    ErrorKind::StoreFailure,
                    Phase::Register,
                    store_error_text(e),
                ),
            }
        }
}

/// What a step does that needs the store: the indexing of the files that
/// were read. Where the store fails on the way, the records of the first
/// files may stay.
pub open spec fn indexes(
    id: i64,
    template_dir: Seq<char>,
    paths: Seq<Seq<char>>,
    contents: Seq<Seq<char>>,
    now: i32,
    before: CacheView,
    step: InstallStep,
    after: CacheView,
) -> bool {
    let files = files_of(paths, contents);
    if step.state is Failed {
        &&& step.failed(ErrorKind::StoreFailure)
        &&& exists|n: int|
            0 <= n <= files.len() && after == before.with_template_content(
                records_of(#[trigger] files.take(n), id, now),
            )
    } else {
        &&& before.has_template(id)
        &&& after == before.with_template_content(records_of(files, id, now))
        &&& step.state matches InstallState::Indexed { id: got, template_dir: dir }
        &&& got == id
        &&& dir@ == template_dir
        &&& step.action matches InstallAction::RemoveGitDir { dir: plan }
        &&& plan@ == given_path(template_dir)
    }
}

/// What a step of an installation does, for each state and each event.
/// An event that the state does not wait for is a failure.
pub open spec fn install_post(
    cmd: &Install,
    state: InstallState,
    event: InstallEvent,
    now: i32,
    before: CacheView,
    step: InstallStep,
    after: CacheView,
) -> bool {
    match (state, event) {
        (InstallState::Requested, InstallEvent::SetupFailed(said)) => {
            &&& after == before
            &&& step.failed_with(ErrorKind::IoError, Phase::Setup, said@)
        },
        (InstallState::Requested, InstallEvent::CloneFailed(said)) => {
            &&& after == before
            &&& step.failed_with(ErrorKind::CloneFailure, Phase::Clone, said@)
        },
        (InstallState::Requested, InstallEvent::CloneFinished) => {
            &&& after == before
            &&& step.state is Cloned
            &&& step.action matches InstallAction::ReadManifest { file }
            &&& file@ == template_config_path(cmd.work_dir())
        },
        (InstallState::Cloned, InstallEvent::ManifestMissing) => {
            &&& after == before
            &&& step.failed_with(ErrorKind::ConfigNotFound, Phase::Config, "boilermaker.toml"@)
        },
        (InstallState::Cloned, InstallEvent::ManifestUnreadable(said)) => {
            &&& after == before
            &&& step.failed_with(ErrorKind::InvalidManifest, Phase::Config, said@)
        },
        (InstallState::Cloned, InstallEvent::ManifestRead(config)) => {
            &&& after == before
            &&& match resolved_lang(
                config.project.default_lang.deep_view(),
                cmd.lang.deep_view(),
            ) {
                Some(wanted) => {
                    &&& step.state matches InstallState::ConfigValidated { lang }
                    &&& lang@ == wanted
                    &&& step.action matches InstallAction::ProbeTemplateDir { dir }
                    &&& dir@ == template_dir_path(cmd.resolved_name())
                },
                None => step.failed(ErrorKind::LanguageUnresolved),
            }
        },
        (
            InstallState::ConfigValidated { lang },
            InstallEvent::TemplateDirProbed { path: None, present },
        ) => {
            &&& after == before
            &&& step.failed_with(ErrorKind::IoError, Phase::Lookup, "home directory"@)
        },
        (
            InstallState::ConfigValidated { lang },
            InstallEvent::TemplateDirProbed { path: Some(path), present },
        ) => registers(cmd, lang@, path@, present, now, before, step, after),
        (InstallState::Registered { id, template_dir }, InstallEvent::CopyFailed(said)) => {
            &&& after == before
            &&& step.failed_with(ErrorKind::IoError, Phase::Copy, said@)
        },
        (InstallState::Registered { id, template_dir }, InstallEvent::CopyFinished) => {
            &&& after == before
            &&& step.state matches InstallState::Copied { id: got, template_dir: dir }
            &&& got == id
            &&& dir@ == template_dir@
            &&& step.action matches InstallAction::ListFiles { dir: plan }
            &&& plan@ == given_path(template_dir@)
        },
        (InstallState::Copied { id, template_dir }, InstallEvent::ListFailed(said)) => {
            &&& after == before
            &&& step.failed_with(ErrorKind::WalkError, Phase::Index, said@)
        },
        (InstallState::Copied { id, template_dir }, InstallEvent::FilesListed(paths)) => {
            &&& after == before
            &&& step.state matches InstallState::Listed { id: got, template_dir: dir, paths: kept }
            &&& got == id
            &&& dir@ == template_dir@
            &&& kept.deep_view() == paths.deep_view().filter(payload_paths())
            &&& step.action matches InstallAction::ReadFiles { paths: wanted }
            &&& wanted.deep_view() == kept.deep_view()
        },
        (InstallState::Listed { id, template_dir, paths }, InstallEvent::ReadFailed(said)) => {
            &&& after == before
            &&& step.failed_with(ErrorKind::IoError, Phase::Index, said@)
        },
        (InstallState::Listed { id, template_dir, paths }, InstallEvent::FilesRead(contents)) => {
            if contents@.len() == paths@.len() {
                indexes(
                    id,
                    template_dir@,
                    paths.deep_view(),
                    contents.deep_view(),
                    now,
                    before,
                    step,
                    after,
                )
            } else {
                &&& after == before
                &&& step.failed(ErrorKind::UnexpectedEvent)
            }
        },
        (InstallState::Indexed { id, template_dir }, InstallEvent::CleanupFailed(said)) => {
            &&& after == before
            &&& step.failed_with(ErrorKind::IoError, Phase::Cleanup, said@)
        },
        (InstallState::Indexed { id, template_dir }, InstallEvent::GitDirRemoved) => {
            &&& after == before
            &&& step.state matches InstallState::CleanedUp { id: got }
            &&& got == id
            &&& step.action matches InstallAction::Finish(InstallOutcome::Installed { id: told })
            &&& told == id
        },
        _ => {
            &&& after == before
            &&& step.failed(ErrorKind::UnexpectedEvent)
        },
    }
}

/// Whether the store has what the step from the given state asks of it:
/// room for the row of the template where the template is registered, and
/// its tables and the template where its files are indexed.
pub open spec fn store_serves(state: InstallState, before: CacheView, room: nat) -> bool {
    match state {
        InstallState::ConfigValidated { lang } => room >= 1,
        InstallState::Listed { id, template_dir, paths } => before.schema && before.has_template(
            id,
        ),
        _ => true,
    }
}

/// On a store that does not fail, installing a template that is installed,
/// with its directory in place, reports a duplicate, and nothing is added
/// and nothing is removed.
pub proof fn lemma_install_reports_duplicate(
    cmd: &Install,
    lang: Seq<char>,
    path: Seq<char>,
    now: i32,
    before: CacheView,
    step: InstallStep,
    after: CacheView,
)
    requires
        registers(cmd, lang, path, true, now, before, step, after),
        !step.failed(ErrorKind::StoreFailure),
        before.has_identity(cmd.row(lang, path)),
    ensures
        step.state is Duplicate,
        step.action matches InstallAction::Finish(InstallOutcome::Duplicate { .. }),
        after == before.with_schema(),
{
}

/// On a store that does not fail, installing a template that is installed,
/// but whose directory is gone, registers it anew: the stale row is
/// removed, the files are to be copied next, and the store holds the
/// template exactly once.
pub proof fn lemma_install_heals(
    cmd: &Install,
    lang: Seq<char>,
    path: Seq<char>,
    now: i32,
    before: CacheView,
    step: InstallStep,
    after: CacheView,
)
    requires
        registers(cmd, lang, path, false, now, before, step, after),
        !step.failed(ErrorKind::StoreFailure),
        unique_identities(before.templates),
        before.has_identity(cmd.row(lang, path)),
    ensures
        step.state is Registered,
        step.action is CopyTemplate,
        holds_once(after.templates, cmd.row(lang, path)),
        unique_identities(after.templates),
        exists|t: TemplateResultView|
            #[trigger] after.templates.contains(t) && t.row() == cmd.row(lang, path),
{
    let row = cmd.row(lang, path);
    let outcome = choose|outcome: Result<Registration, StoreError>|
        {
            &&& #[trigger] registration_post(before, row, false, now, outcome, after)
            &&& match outcome {
                Ok(Registration::Duplicate(t)) => step.state is Duplicate,
                Ok(Registration::Registered { id, healed }) => step.state is Registered
                    && step.action is CopyTemplate,
                Err(e) => step.failed_with(
                    ErrorKind::StoreFailure,
                    Phase::Register,
                    store_error_text(e),
                ),
            }
        };
    lemma_reinstall_heals(before, row, now, outcome, after);
    match outcome {
        Ok(Registration::Registered { id, healed }) => {
            let added = row.stored(id, now);
            let last = after.templates.len() - 1;
            assert(after.templates[last] == added);
            assert(after.templates.contains(added));
            assert(added.row() == row);
        },
        _ => {},
    }
}

/// A step that fails.
fn fail(kind: ErrorKind, phase: Phase, detail: &str) -> (step: InstallStep)
    ensures
        step.failed_with(kind, phase, detail@),
        step.failed(kind),
{
    InstallStep {
        state: InstallState::Failed,
        action: InstallAction::Fail(PipelineError::new(kind, phase, detail)),
    }
}

/// A step that fails because the event was not waited for.
fn unexpected() -> (step: InstallStep)
    ensures
        step.failed(ErrorKind::UnexpectedEvent),
{
    fail(ErrorKind::UnexpectedEvent, Phase::Setup, "unexpected event")
}

/// Begins an installation: the repository is to be cloned.
pub fn begin_install(cmd: &Install) -> (step: InstallStep)
    ensures
        install_begins(cmd, step),
{
    InstallStep { state: InstallState::Requested, action: InstallAction::Clone(cmd.clone_context()) }
}

/// Takes an installation one step further: from the state that it is in
/// and from what happened outside, to the next state and to what is to be
/// done outside next. The store is read and written where the step needs
/// it: when the template is registered and when its files are indexed.
pub fn install<D: TemplateDb>(
    app_state: &mut AppState<D>,
    cmd: &Install,
    state: InstallState,
    event: InstallEvent,
    now: i32,
) -> (step: InstallStep)
    ensures
        install_post(
            cmd,
            state,
            event,
            now,
            old(app_state).local_db.state(),
            step,
            final(app_state).local_db.state(),
        ),
        store_serves(state, old(app_state).local_db.state(), old(app_state).local_db.room())
            && old(app_state).local_db.dependable() ==> !step.failed(ErrorKind::StoreFailure),
        final(app_state).local_db.dependable() == old(app_state).local_db.dependable(),
        final(app_state).local_db.room() + 1 >= old(app_state).local_db.room(),
        old(app_state).local_db.state().ids_distinct()
            ==> final(app_state).local_db.state().ids_distinct(),
        final(app_state).log_level == old(app_state).log_level,
{
    match (state, event) {
        (InstallState::Requested, InstallEvent::SetupFailed(said)) => fail(
            ErrorKind::IoError,
            Phase::Setup,
            said.as_str(),
        ),
        (InstallState::Requested, InstallEvent::CloneFailed(said)) => fail(
            ErrorKind::CloneFailure,
            Phase::Clone,
            said.as_str(),
        ),
        (InstallState::Requested, InstallEvent::CloneFinished) => InstallStep {
            state: InstallState::Cloned,
            action: InstallAction::ReadManifest {
                file: get_template_config_path(cmd.plan_work_dir()),
            },
        },
        (InstallState::Cloned, InstallEvent::ManifestMissing) => fail(
            ErrorKind::ConfigNotFound,
            Phase::Config,
            "boilermaker.toml",
        ),
        (InstallState::Cloned, InstallEvent::ManifestUnreadable(said)) => fail(
            ErrorKind::InvalidManifest,
            Phase::Config,
            said.as_str(),
        ),
        (InstallState::Cloned, InstallEvent::ManifestRead(config)) => {
            match get_lang(&config, &cmd.lang) {
                Ok(lang) => {
                    let name = cmd.name();
                    InstallStep {
                        state: InstallState::ConfigValidated { lang },
                        action: InstallAction::ProbeTemplateDir {
                            dir: get_template_dir_path(name.as_str()),
                        },
                    }
                },
                Err(e) => InstallStep {
                    state: InstallState::Failed,
                    action: InstallAction::Fail(e),
                },
            }
        },
        (
            InstallState::ConfigValidated { lang },
            InstallEvent::TemplateDirProbed { path: None, present },
        ) => fail(ErrorKind::IoError, Phase::Lookup, "home directory"),
        (
            InstallState::ConfigValidated { lang },
            InstallEvent::TemplateDirProbed { path: Some(path), present },
        ) => {
            let row = cmd.make_row(&lang, &path);
            let outcome = register_template(&mut app_state.local_db, row, present, now);
            let step = match &outcome {
                Ok(Registration::Duplicate(t)) => InstallStep {
                    state: InstallState::Duplicate,
                    action: InstallAction::Finish(
                        InstallOutcome::Duplicate {
                            name: t.name.clone(),
                            lang: t.lang.clone(),
                            repo: t.repo.clone(),
                        },
                    ),
                },
                Ok(Registration::Registered { id, healed }) => InstallStep {
                    state: InstallState::Registered { id: *id, template_dir: path.clone() },
                    action: InstallAction::CopyTemplate {
                        from: cmd.plan_work_dir(),
                        to: PathPlan::given(path.as_str()),
                    },
                },
                Err(e) => {
                    let said = e.message();
                    fail(ErrorKind::StoreFailure, Phase::Register, said.as_str())
                },
            };
            step
        },
        (InstallState::Registered { id, template_dir }, InstallEvent::CopyFailed(said)) => fail(
            ErrorKind::IoError,
            Phase::Copy,
            said.as_str(),
        ),
        (InstallState::Registered { id, template_dir }, InstallEvent::CopyFinished) => {
            let dir = PathPlan::given(template_dir.as_str());
            InstallStep {
                state: InstallState::Copied { id, template_dir },
                action: InstallAction::ListFiles { dir },
            }
        },
        (InstallState::Copied { id, template_dir }, InstallEvent::ListFailed(said)) => fail(
            ErrorKind::WalkError,
            Phase::Index,
            said.as_str(),
        ),
        (InstallState::Copied { id, template_dir }, InstallEvent::FilesListed(paths)) => {
            let kept = list_template_files(&paths);
            let wanted = clone_strings(&kept);
            InstallStep {
                state: InstallState::Listed { id, template_dir, paths: kept },
                action: InstallAction::ReadFiles { paths: wanted },
            }
        },
        (InstallState::Listed { id, template_dir, paths }, InstallEvent::ReadFailed(said)) => fail(
            ErrorKind::IoError,
            Phase::Index,
            said.as_str(),
        ),
        (InstallState::Listed { id, template_dir, paths }, InstallEvent::FilesRead(contents)) => {
            if contents.len() != paths.len() {
                return unexpected();
            }
            let files = pair_files(&paths, &contents);
            match app_state.local_db.index_template(id, &files, now) {
                Ok(()) => {
                    let dir = PathPlan::given(template_dir.as_str());
                    InstallStep {
                        state: InstallState::Indexed { id, template_dir },
                        action: InstallAction::RemoveGitDir { dir },
                    }
                },
                Err(e) => {
                    let said = e.message();
                    fail(ErrorKind::StoreFailure, Phase::Index, said.as_str())
                },
            }
        },
        (InstallState::Indexed { id, template_dir }, InstallEvent::CleanupFailed(said)) => fail(
            ErrorKind::IoError,
            Phase::Cleanup,
            said.as_str(),
        ),
        (InstallState::Indexed { id, template_dir }, InstallEvent::GitDirRemoved) => InstallStep {
            state: InstallState::CleanedUp { id },
            action: InstallAction::Finish(InstallOutcome::Installed { id }),
        },
        _ => unexpected(),
    }
}

} // verus!
