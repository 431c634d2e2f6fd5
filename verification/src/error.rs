//! How a pipeline fails.

use vstd::prelude::*;

verus! {

/// The kinds of failure.
#[derive(Debug, Clone, Copy, PartialEq, Eq, Structural)]
pub enum ErrorKind {
    /// The manifest of a template is not where it should be.
    ConfigNotFound,
    /// A manifest lacks a field or cannot be understood.
    InvalidManifest,
    /// Neither the request nor the manifest names a language.
    LanguageUnresolved,
    /// The template is installed already, and its directory is there.
    DuplicateTemplate,
    /// The repository could not be cloned.
    CloneFailure,
    /// The manifest of a source could not be fetched.
    FetchFailure,
    /// The store failed.
    StoreFailure,
    /// No installed template has the name that was asked for.
    TemplateNotFound,
    /// Several installed templates have the name, and no language was given.
    AmbiguousTemplate,
    /// A variable was given that the template does not use.
    UnknownVariable,
    /// The directory of the new project exists already.
    PathConflict,
    /// The search term is blank.
    BlankQuery,
    /// A variable was not given as `key=value`.
    InvalidVariable,
    /// A directory tree could not be walked.
    WalkError,
    /// A file or directory could not be read, written, copied or removed.
    IoError,
    /// A file could not be rendered.
    RenderFailure,
    /// The engine for patterns does not accept the pattern of a
    /// placeholder.
    InvalidPattern,
    /// An event arrived that the pipeline did not wait for.
    UnexpectedEvent,
}

/// The stages of the pipelines.
#[derive(Debug, Clone, Copy, PartialEq, Eq, Structural)]
pub enum Phase {
    /// Preparing the directory to clone into.
    Setup,
    /// Cloning the repository.
    Clone,
    /// Fetching the manifest of a source.
    Fetch,
    /// Reading and checking a manifest.
    Config,
    /// Looking up templates and checking for duplicates.
    Lookup,
    /// Writing to the store.
    Register,
    /// Copying files.
    Copy,
    /// Reading and indexing files.
    Index,
    /// Checking the variables.
    Variables,
    /// Rendering files.
    Render,
    /// Creating the directory of the project and moving the files there.
    Output,
    /// Removing what is not needed any more.
    Cleanup,
}

/// A failure of a pipeline: what kind it is, in which stage it came, and
/// what the failing part said.
#[derive(Debug)]
pub struct PipelineError {
    pub kind: ErrorKind,
    pub phase: Phase,
    pub detail: String,
}

/// The mathematical value of a [`PipelineError`].
pub struct PipelineErrorView {
    pub kind: ErrorKind,
    pub phase: Phase,
    pub detail: Seq<char>,
}

impl View for PipelineError {
    type V = PipelineErrorView;

    open spec fn view(&self) -> PipelineErrorView {
        PipelineErrorView { kind: self.kind, phase: self.phase, detail: self.detail@ }
    }
}

impl DeepView for PipelineError {
    type V = PipelineErrorView;

    open spec fn deep_view(&self) -> PipelineErrorView {
        self@
    }
}

impl Clone for PipelineError {
    fn clone(&self) -> (copy: Self)
        ensures
            copy@ == self@,
    {
        PipelineError { kind: self.kind, phase: self.phase, detail: self.detail.clone() }
    }
}

impl PipelineError {
    /// A failure of the given kind in the given stage.
    pub fn new(kind: ErrorKind, phase: Phase, detail: &str) -> (error: Self)
        ensures
            error@ == (PipelineErrorView { kind, phase, detail: detail@ }),
    {
        PipelineError { kind, phase, detail: detail.to_owned() }
    }
}

} // verus!
