//! Updating an installed template: clone it anew, put the clone in place
//! of its directory, note the update in the store.

use crate::db::local_db::{CacheState, CacheView, TemplateDb};
use crate::db::template::{TemplateMethods, TemplateResult, TemplateRow};
use crate::error::{ErrorKind, Phase, PipelineError, PipelineErrorView};
use crate::state::AppState;
use crate::template::{make_tmp_dir_from_url, tmp_dir_from_url, CloneContext};
use crate::util::file::{PathPlan, PathPlanView, PathRootView};
use crate::util::string::clone_opt_string;
use vstd::prelude::*;

verus! {

/// The request to update the template with an id.
#[derive(Debug)]
pub struct Update {
    pub id: i32,
}

/// How far an update has come.
#[derive(Debug)]
pub enum UpdateState {
    /// The template is found; its repository is being cloned.
    Found { template: TemplateResult },
    /// The repository is cloned; the clone is being put in place of the
    /// directory of the template.
    Cloned { template: TemplateResult },
    /// The update is noted in the store.
    Updated,
    /// The update failed.
    Failed,
}

/// What happened outside since the last step.
#[derive(Debug)]
pub enum UpdateEvent {
    /// The repository could not be cloned.
    CloneFailed(String),
    /// The repository is cloned.
    CloneFinished,
    /// The directory of the template could not be replaced.
    ReplaceFailed(String),
    /// The directory of the template holds the new clone, without the
    /// files of the version control.
    Replaced,
}

/// What is to be done outside before the next step.
#[derive(Debug)]
pub enum UpdateAction {
    /// Clone the repository.
    Clone(CloneContext),
    /// Remove the second directory, copy what is in the first into it, and
    /// remove the files of the version control from it.
    ReplaceTemplateDir { from: PathPlan, to: PathPlan },
    /// Nothing is left to do: the id of the template that was updated.
    Finish { id: i64 },
    /// Nothing can be done any more.
    Fail(PipelineError),
}

/// A step of an update.
#[derive(Debug)]
pub struct UpdateStep {
    pub state: UpdateState,
    pub action: UpdateAction,
}

impl UpdateStep {
    /// Whether the step is a failure of the given kind, in the given stage,
    /// with the given words.
    pub open spec fn failed_with(self, kind: ErrorKind, phase: Phase, detail: Seq<char>) -> bool {
        &&& self.state is Failed
        &&& self.action matches UpdateAction::Fail(e)
        &&& e@ == (PipelineErrorView { kind, phase, detail })
    }

    /// Whether the step is a failure of the given kind.
    pub open spec fn failed(self, kind: ErrorKind) -> bool {
        &&& self.state is Failed
        &&& self.action matches UpdateAction::Fail(e)
        &&& e.kind == kind
    }
}

/// A step that fails.
fn fail(kind: ErrorKind, phase: Phase, detail: &str) -> (step: UpdateStep)
    ensures
        step.failed_with(kind, phase, detail@),
        step.failed(kind),
{
    UpdateStep {
        state: UpdateState::Failed,
        action: UpdateAction::Fail(PipelineError::new(kind, phase, detail)),
    }
}

/// What follows from the template that the store found for the id: its
/// repository is to be cloned, at its branch, into the directory that the
/// URL names; or, where there is none, the update fails.
pub open spec fn update_begins(found: Option<TemplateResult>, step: UpdateStep) -> bool {
    match found {
        Some(t) => {
            &&& step.state matches UpdateState::Found { template }
            &&& template@ == t@
            &&& step.action matches UpdateAction::Clone(ctx)
            &&& ctx.url@ == t.repo@
            &&& ctx.branch.deep_view() == t.branch.deep_view()
            &&& ctx.dest matches Some(dir)
            &&& dir@ == tmp_dir_from_url(t.repo@)
        },
        None => step.failed_with(
            ErrorKind::TemplateNotFound,
            Phase::Lookup,
            "Cannot find template"@,
        ),
    }
}

/// Decides how an update begins, from the template that the store found
/// for the id.
pub fn start_update(found: Option<TemplateResult>) -> (step: UpdateStep)
    ensures
        update_begins(found, step),
{
    match found {
        Some(template) => {
            let ctx = CloneContext::new(
                template.repo.as_str(),
                Some(make_tmp_dir_from_url(template.repo.as_str())),
                clone_opt_string(&template.branch),
            );
            UpdateStep { state: UpdateState::Found { template }, action: UpdateAction::Clone(ctx) }
        },
        None => fail(ErrorKind::TemplateNotFound, Phase::Lookup, "Cannot find template"),
    }
}

/// Begins an update: looks up the template. Where there is none with the
/// id, the update fails; else its repository is to be cloned, at its
/// branch, into the directory that the URL names. Nothing but a failure of
/// the store keeps it from that: a dependable store with its tables does
/// not fail.
pub fn begin_update<D: TemplateDb>(app_state: &AppState<D>, cmd: &Update) -> (step: UpdateStep)
    ensures
        ({
            ||| step.failed(ErrorKind::StoreFailure)
            ||| {
                &&& !app_state.local_db.state().has_template(cmd.id as i64)
                &&& step.failed(ErrorKind::TemplateNotFound)
            }
            ||| {
                &&& step.state matches UpdateState::Found { template }
                &&& template.id == cmd.id
                &&& app_state.local_db.state().templates.contains(template@)
                &&& step.action matches UpdateAction::Clone(ctx)
                &&& ctx.url@ == template.repo@
                &&& ctx.branch.deep_view() == template.branch.deep_view()
                &&& ctx.dest matches Some(dir)
                &&& dir@ == tmp_dir_from_url(template.repo@)
            }
        }),
        app_state.local_db.dependable() && app_state.local_db.state().schema ==> !step.failed(
            ErrorKind::StoreFailure,
        ),
{
    match app_state.local_db.get_template(cmd.id as i64) {
        Ok(found) => start_update(found),
        Err(e) => {
            let said = e.message();
            fail(ErrorKind::StoreFailure, Phase::Lookup, said.as_str())
        },
    }
}

/// What a step of an update does. The store is written at the end, when
/// the new clone is in place: the row of the template stays as it was, and
/// the time of the update is noted.
pub open spec fn update_post(
    state: UpdateState,
    event: UpdateEvent,
    now: i32,
    before: CacheView,
    step: UpdateStep,
    after: CacheView,
) -> bool {
    match (state, event) {
        (UpdateState::Found { template }, UpdateEvent::CloneFailed(said)) => {
            &&& after == before
            &&& step.failed_with(ErrorKind::CloneFailure, Phase::Clone, said@)
        },
        (UpdateState::Found { template }, UpdateEvent::CloneFinished) => {
            &&& after == before
            &&& step.state matches UpdateState::Cloned { template: t }
            &&& t@ == template@
            &&& step.action matches UpdateAction::ReplaceTemplateDir { from, to }
            &&& from@ == tmp_dir_from_url(template.repo@)
            &&& to@ == PathPlanView::at(PathRootView::Given(template.template_dir@))
        },
        (UpdateState::Cloned { template }, UpdateEvent::ReplaceFailed(said)) => {
            &&& after == before
            &&& step.failed_with(ErrorKind::IoError, Phase::Copy, said@)
        },
        (UpdateState::Cloned { template }, UpdateEvent::Replaced) => {
            ||| {
                &&& after == before
                &&& step.failed(ErrorKind::StoreFailure)
            }
            ||| {
                &&& after == before.with_updated(template.id, template@.row(), now)
                &&& step.state is Updated
                &&& step.action matches UpdateAction::Finish { id }
                &&& id == template.id
            }
        },
        _ => {
            &&& after == before
            &&& step.failed(ErrorKind::UnexpectedEvent)
        },
    }
}

/// Takes an update one step further.
pub fn update<D: TemplateDb>(
    app_state: &mut AppState<D>,
    state: UpdateState,
    event: UpdateEvent,
    now: i32,
) -> (step: UpdateStep)
    ensures
        update_post(
            state,
            event,
            now,
            old(app_state).local_db.state(),
            step,
            final(app_state).local_db.state(),
        ),
        old(app_state).local_db.dependable() && old(app_state).local_db.state().schema
            ==> !step.failed(ErrorKind::StoreFailure),
        final(app_state).local_db.dependable() == old(app_state).local_db.dependable(),
        final(app_state).local_db.room() >= old(app_state).local_db.room(),
        old(app_state).local_db.state().ids_distinct()
            ==> final(app_state).local_db.state().ids_distinct(),
{
    match (state, event) {
        (UpdateState::Found { template }, UpdateEvent::CloneFailed(said)) => fail(
            ErrorKind::CloneFailure,
            Phase::Clone,
            said.as_str(),
        ),
        (UpdateState::Found { template }, UpdateEvent::CloneFinished) => {
            let from = make_tmp_dir_from_url(template.repo.as_str());
            let to = PathPlan::given(template.template_dir.as_str());
            UpdateStep {
                state: UpdateState::Cloned { template },
                action: UpdateAction::ReplaceTemplateDir { from, to },
            }
        },
        (UpdateState::Cloned { template }, UpdateEvent::ReplaceFailed(said)) => fail(
            ErrorKind::IoError,
            Phase::Copy,
            said.as_str(),
        ),
        (UpdateState::Cloned { template }, UpdateEvent::Replaced) => {
            let id = template.id;
            let row = TemplateRow {
                name: template.name,
                lang: template.lang,
                template_dir: template.template_dir,
                repo: template.repo,
                branch: template.branch,
                subdir: template.subdir,
                sha256_hash: template.sha256_hash,
            };
            match app_state.local_db.update_template(id, row, now) {
                Ok(id) => UpdateStep {
                    state: UpdateState::Updated,
                    action: UpdateAction::Finish { id },
                },
                Err(e) => {
                    let said = e.message();
                    fail(ErrorKind::StoreFailure, Phase::Register, said.as_str())
                },
            }
        },
        _ => fail(ErrorKind::UnexpectedEvent, Phase::Setup, "unexpected event"),
    }
}

} // verus!
