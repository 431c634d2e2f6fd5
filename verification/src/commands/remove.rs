//! Removing an installed template: its directory first, then its row.

use crate::db::local_db::{CacheState, CacheView, TemplateDb};
use crate::db::template::{TemplateMethods, TemplateResult};
use crate::error::{ErrorKind, Phase, PipelineError, PipelineErrorView};
use crate::state::AppState;
use crate::util::file::{PathPlan, PathPlanView, PathRootView};
use vstd::prelude::*;

verus! {

/// The request to remove the template with an id.
#[derive(Debug)]
pub struct Remove {
    pub id: i64,
}

/// How far a removal has come.
#[derive(Debug)]
pub enum RemoveState {
    /// The template is found; its directory is being removed.
    Found { template: TemplateResult },
    /// The template is removed.
    Removed,
    /// The removal failed.
    Failed,
}

/// What happened outside since the last step.
#[derive(Debug)]
pub enum RemoveEvent {
    /// The directory could not be removed.
    DirRemovalFailed(String),
    /// The directory is gone.
    DirRemoved,
}

/// What is to be done outside before the next step.
#[derive(Debug)]
pub enum RemoveAction {
    /// Show the template and remove the directory, if it is there.
    RemoveDir { template: TemplateResult, dir: PathPlan },
    /// Nothing is left to do: the id of the template that was removed.
    Finish { id: i64 },
    /// Nothing can be done any more.
    Fail(PipelineError),
}

/// A step of a removal.
#[derive(Debug)]
pub struct RemoveStep {
    pub state: RemoveState,
    pub action: RemoveAction,
}

impl RemoveStep {
    /// Whether the step is a failure of the given kind, in the given stage,
    /// with the given words.
    pub open spec fn failed_with(self, kind: ErrorKind, phase: Phase, detail: Seq<char>) -> bool {
        &&& self.state is Failed
        &&& self.action matches RemoveAction::Fail(e)
        &&& e@ == (PipelineErrorView { kind, phase, detail })
    }

    /// Whether the step is a failure of the given kind.
    pub open spec fn failed(self, kind: ErrorKind) -> bool {
        &&& self.state is Failed
        &&& self.action matches RemoveAction::Fail(e)
        &&& e.kind == kind
    }
}

/// A step that fails.
fn fail(kind: ErrorKind, phase: Phase, detail: &str) -> (step: RemoveStep)
    ensures
        step.failed_with(kind, phase, detail@),
        step.failed(kind),
{
    RemoveStep {
        state: RemoveState::Failed,
        action: RemoveAction::Fail(PipelineError::new(kind, phase, detail)),
    }
}

/// What follows from the template that the store found for the id: its
/// directory is to be removed, or, where there is none, the removal fails.
pub open spec fn removal_begins(found: Option<TemplateResult>, step: RemoveStep) -> bool {
    match found {
        Some(t) => {
            &&& step.state matches RemoveState::Found { template }
            &&& template@ == t@
            &&& step.action matches RemoveAction::RemoveDir { template: shown, dir }
            &&& shown@ == t@
            &&& dir@ == PathPlanView::at(PathRootView::Given(t.template_dir@))
        },
        None => step.failed_with(
            ErrorKind::TemplateNotFound,
            Phase::Lookup,
            "No template found with this ID"@,
        ),
    }
}

/// Decides how a removal begins, from the template that the store found
/// for the id.
pub fn start_removal(found: Option<TemplateResult>) -> (step: RemoveStep)
    ensures
        removal_begins(found, step),
{
    match found {
        Some(template) => {
            let dir = PathPlan::given(template.template_dir.as_str());
            let shown = template.clone();
            RemoveStep {
                state: RemoveState::Found { template },
                action: RemoveAction::RemoveDir { template: shown, dir },
            }
        },
        None => fail(ErrorKind::TemplateNotFound, Phase::Lookup, "No template found with this ID"),
    }
}

/// Begins a removal: looks up the template. Where there is none with the
/// id, the removal fails; else its directory is to be removed. Nothing but
/// a failure of the store keeps it from that: a dependable store with its
/// tables does not fail.
pub fn begin_remove<D: TemplateDb>(app_state: &AppState<D>, cmd: &Remove) -> (step: RemoveStep)
    ensures
        ({
            ||| step.failed(ErrorKind::StoreFailure)
            ||| {
                &&& !app_state.local_db.state().has_template(cmd.id)
                &&& step.failed(ErrorKind::TemplateNotFound)
            }
            ||| {
                &&& step.state matches RemoveState::Found { template }
                &&& template.id == cmd.id
                &&& app_state.local_db.state().templates.contains(template@)
                &&& step.action matches RemoveAction::RemoveDir { template: shown, dir }
                &&& shown@ == template@
                &&& dir@ == PathPlanView::at(PathRootView::Given(template.template_dir@))
            }
        }),
        app_state.local_db.dependable() && app_state.local_db.state().schema ==> !step.failed(
            ErrorKind::StoreFailure,
        ),
{
    match app_state.local_db.get_template(cmd.id) {
        Ok(found) => start_removal(found),
        Err(e) => {
            let said = e.message();
            fail(ErrorKind::StoreFailure, Phase::Lookup, said.as_str())
        },
    }
}

/// What a step of a removal does. Once the directory is gone, the row of
/// the template is removed from the store; where the directory could not
/// be removed, the row stays.
pub open spec fn remove_post(
    cmd: &Remove,
    state: RemoveState,
    event: RemoveEvent,
    before: CacheView,
    step: RemoveStep,
    after: CacheView,
) -> bool {
    match (state, event) {
        (RemoveState::Found { template }, RemoveEvent::DirRemovalFailed(said)) => {
            &&& after == before
            &&& step.failed_with(ErrorKind::IoError, Phase::Cleanup, said@)
        },
        (RemoveState::Found { template }, RemoveEvent::DirRemoved) => {
            ||| {
                &&& after == before
                &&& step.failed(ErrorKind::StoreFailure)
            }
            ||| {
                &&& after == before.without_template(cmd.id)
                &&& step.state is Removed
                &&& step.action matches RemoveAction::Finish { id }
                &&& id == cmd.id
            }
        },
        _ => {
            &&& after == before
            &&& step.failed(ErrorKind::UnexpectedEvent)
        },
    }
}

/// Takes a removal one step further.
pub fn remove<D: TemplateDb>(
    app_state: &mut AppState<D>,
    cmd: &Remove,
    state: RemoveState,
    event: RemoveEvent,
) -> (step: RemoveStep)
    ensures
        remove_post(
            cmd,
            state,
            event,
            old(app_state).local_db.state(),
            step,
            final(app_state).local_db.state(),
        ),
        old(app_state).local_db.dependable() && old(app_state).local_db.state().schema
            ==> !step.failed(ErrorKind::StoreFailure),
        final(app_state).local_db.dependable() == old(app_state).local_db.dependable(),
        final(app_state).local_db.room() >= old(app_state).local_db.room(),
        old(app_state).local_db.state().ids_distinct()
            ==> final(app_state).local_db.state().ids_distinct(),
{
    match (state, event) {
        (RemoveState::Found { template }, RemoveEvent::DirRemovalFailed(said)) => fail(
            ErrorKind::IoError,
            Phase::Cleanup,
            said.as_str(),
        ),
        (RemoveState::Found { template }, RemoveEvent::DirRemoved) => {
            match app_state.local_db.delete_template(cmd.id) {
                Ok(id) => RemoveStep {
                    state: RemoveState::Removed,
                    action: RemoveAction::Finish { id },
                },
                Err(e) => {
                    let said = e.message();
                    fail(ErrorKind::StoreFailure, Phase::Register, said.as_str())
                },
            }
        },
        _ => fail(ErrorKind::UnexpectedEvent, Phase::Setup, "unexpected event"),
    }
}

} // verus!
