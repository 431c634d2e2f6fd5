//! Paths as the library plans them: a root that the program resolves, and
//! the segments that are joined to it in turn.

use crate::util::string::{chars_of, clone_strings, matches_at, occurs_at};
use vstd::prelude::*;

verus! {

/// Where a planned path starts.
#[derive(Debug)]
pub enum PathRoot {
    /// The directory for temporary files.
    Temp,
    /// The home directory of the user.
    Home,
    /// The directory in which the program runs.
    Current,
    /// A path that is given as text.
    Given(String),
}

/// The mathematical value of a [`PathRoot`].
pub enum PathRootView {
    Temp,
    Home,
    Current,
    Given(Seq<char>),
}

impl View for PathRoot {
    type V = PathRootView;

    open spec fn view(&self) -> PathRootView {
        match self {
            PathRoot::Temp => PathRootView::Temp,
            PathRoot::Home => PathRootView::Home,
            PathRoot::Current => PathRootView::Current,
            PathRoot::Given(path) => PathRootView::Given(path@),
        }
    }
}

impl Clone for PathRoot {
    fn clone(&self) -> (copy: Self)
        ensures
            copy@ == self@,
    {
        match self {
            PathRoot::Temp => PathRoot::Temp,
            PathRoot::Home => PathRoot::Home,
            PathRoot::Current => PathRoot::Current,
            PathRoot::Given(path) => PathRoot::Given(path.clone()),
        }
    }
}

/// A path that is still to be resolved: the root, and the segments that are
/// joined to it one after the other.
#[derive(Debug)]
pub struct PathPlan {
    pub root: PathRoot,
    pub segments: Vec<String>,
}

/// The mathematical value of a [`PathPlan`].
pub struct PathPlanView {
    pub root: PathRootView,
    pub segments: Seq<Seq<char>>,
}

impl PathPlanView {
    /// The path with one more segment joined to it.
    pub open spec fn join(self, segment: Seq<char>) -> PathPlanView {
        PathPlanView { root: self.root, segments: self.segments.push(segment) }
    }

    /// The path with a segment joined to it, if there is one.
    pub open spec fn join_optional(self, segment: Option<Seq<char>>) -> PathPlanView {
        match segment {
            Some(s) => self.join(s),
            None => self,
        }
    }

    /// The root itself.
    pub open spec fn at(root: PathRootView) -> PathPlanView {
        PathPlanView { root, segments: Seq::empty() }
    }
}

impl View for PathPlan {
    type V = PathPlanView;

    open spec fn view(&self) -> PathPlanView {
        PathPlanView { root: self.root@, segments: self.segments.deep_view() }
    }
}

impl DeepView for PathPlan {
    type V = PathPlanView;

    open spec fn deep_view(&self) -> PathPlanView {
        self@
    }
}

impl Clone for PathPlan {
    fn clone(&self) -> (copy: Self)
        ensures
            copy@ == self@,
    {
        let segments = clone_strings(&self.segments);
        PathPlan { root: self.root.clone(), segments }
    }
}

impl PathPlan {
    /// The path that is a root and nothing else.
    pub fn at(root: PathRoot) -> (plan: Self)
        ensures
            plan@ == PathPlanView::at(root@),
    {
        let plan = PathPlan { root, segments: Vec::new() };
        assert(plan.segments.deep_view() =~= Seq::<Seq<char>>::empty());
        plan
    }

    /// The path that a text gives.
    pub fn given(path: &str) -> (plan: Self)
        ensures
            plan@ == PathPlanView::at(PathRootView::Given(path@)),
    {
        PathPlan::at(PathRoot::Given(path.to_owned()))
    }

    /// This path with one more segment joined to it.
    pub fn join(self, segment: &str) -> (plan: Self)
        ensures
            plan@ == self@.join(segment@),
    {
        let mut plan = self;
        plan.segments.push(segment.to_owned());
        assert(plan.segments.deep_view() =~= self.segments.deep_view().push(segment@));
        plan
    }

    /// This path with a segment joined to it, if there is one.
    pub fn join_optional(self, segment: &Option<String>) -> (plan: Self)
        ensures
            plan@ == self@.join_optional(segment.deep_view()),
    {
        match segment {
            Some(s) => self.join(s.as_str()),
            None => self,
        }
    }
}

/// The name of the directory in which git keeps its own files.
pub open spec fn git_marker() -> Seq<char> {
    seq!['.', 'g', 'i', 't']
}

/// Whether the segment `.git` of a path starts at place `at`: the name
/// stands there, behind the start of the path or a `/`, and before a `/`
/// or the end of the path.
pub open spec fn git_segment_at(path: Seq<char>, at: int) -> bool {
    &&& occurs_at(path, git_marker(), at)
    &&& (at == 0 || path[at - 1] == '/')
    &&& (at + 4 == path.len() || path[at + 4] == '/')
}

/// Whether a path leads into git's directory: one of its segments is
/// `.git`.
pub open spec fn has_git_segment(path: Seq<char>) -> bool {
    exists|at: int| git_segment_at(path, at)
}

/// Whether a file belongs to a template's payload: it does not lie in
/// git's directory. Files such as `.gitignore`, and what lies under
/// `.github`, belong to the payload.
pub open spec fn is_payload_path(path: Seq<char>) -> bool {
    !has_git_segment(path)
}

/// Whether the file at `path` belongs to a template's payload. The files
/// that the version control keeps in its own directory are neither indexed
/// nor rendered.
pub fn is_template_file(path: &str) -> (payload: bool)
    ensures
        payload == is_payload_path(path@),
{
    proof {
        reveal_strlit(".git");
        assert(".git"@ =~= git_marker());
    }
    let chars = chars_of(path);
    let marker = chars_of(".git");
    if chars.len() < 4 {
        assert forall|at: int| !git_segment_at(chars@, at) by {}
        return true;
    }
    let len: usize = chars.len();
    let last: usize = len - 4;
    let mut at: usize = 0;
    loop
        invariant
            at <= last,
            len == chars@.len(),
            last + 4 == len,
            chars@ == path@,
            marker@ == git_marker(),
            forall|j: int| 0 <= j < at ==> !git_segment_at(chars@, j),
        decreases last - at,
    {
        let starts = at == 0 || chars[at - 1] == '/';
        if starts && matches_at(&chars, &marker, at) {
            let ends = at == last || chars[at + 4] == '/';
            if ends {
                assert(git_segment_at(chars@, at as int));
                return false;
            }
        }
        if at == last {
            assert forall|j: int| !git_segment_at(chars@, j) by {}
            return true;
        }
        at += 1;
    }
}

/// The paths that belong to a template's payload.
pub open spec fn payload_paths() -> spec_fn(Seq<char>) -> bool {
    |path: Seq<char>| is_payload_path(path)
}

/// Keeps the paths of the files that belong to a template's payload, in
/// their order.
pub fn list_template_files(paths: &Vec<String>) -> (kept: Vec<String>)
    ensures
        kept.deep_view() == paths.deep_view().filter(payload_paths()),
{
    let ghost all = paths.deep_view();
    let mut kept: Vec<String> = Vec::new();
    let mut i: usize = 0;
    proof {
        reveal(Seq::filter);
        assert(all.take(0) =~= Seq::empty());
        assert(kept.deep_view() =~= all.take(0).filter(payload_paths()));
    }
    while i < paths.len()
        invariant
            i <= paths@.len(),
            all == paths.deep_view(),
            kept.deep_view() == all.take(i as int).filter(payload_paths()),
        decreases paths@.len() - i,
    {
        proof {
            assert(all.take(i as int + 1) =~= all.take(i as int).push(all[i as int]));
            all.take(i as int).lemma_filter_push(all[i as int], payload_paths());
        }
        if is_template_file(paths[i].as_str()) {
            let ghost prior = kept.deep_view();
            kept.push(paths[i].clone());
            assert(kept.deep_view() =~= prior.push(all[i as int]));
        }
        i += 1;
    }
    assert(all.take(i as int) =~= all);
    kept
}

} // verus!
