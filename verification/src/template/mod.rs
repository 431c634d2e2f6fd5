//! What the pipelines share: names derived from a URL, the language of a
//! template, and the request to clone a repository.

pub mod static_analysis;

use crate::config::TemplateConfig;
use crate::error::{ErrorKind, Phase, PipelineError, PipelineErrorView};
use crate::util::file::{PathPlan, PathPlanView, PathRoot, PathRootView};
use crate::util::map::StringMap;
use crate::util::string::chars_of;
use vstd::prelude::*;
use vstd::string::StrSliceExecFns;

verus! {

/// The place just behind the last `/` of a text; 0 if it has none.
pub open spec fn last_segment_start(s: Seq<char>) -> int
    decreases s.len(),
{
    if s.len() == 0 {
        0
    } else if s.last() == '/' {
        s.len() as int
    } else {
        last_segment_start(s.drop_last())
    }
}

/// The place of the last `.` of a text between `from` and `to`; `to` if
/// there is none.
pub open spec fn last_dot_between(s: Seq<char>, from: int, to: int) -> int
    decreases to - from,
{
    if to <= from || to > s.len() || from < 0 {
        to
    } else if s[to - 1] == '.' {
        to - 1
    } else {
        let before = last_dot_between(s, from, to - 1);
        if before == to - 1 {
            to
        } else {
            before
        }
    }
}

/// The name that a URL gives to a template: what stands behind its last
/// `/`, without its extension, which is what follows the last `.` there.
pub open spec fn name_from_url(url: Seq<char>) -> Seq<char> {
    let start = last_segment_start(url);
    url.subrange(start, last_dot_between(url, start, url.len() as int))
}

/// Derives the name of a template from the URL of its repository: the last
/// path segment, with its extension stripped.
pub fn make_name_from_url(url: &str) -> (name: String)
    ensures
        name@ == name_from_url(url@),
{
    let chars = chars_of(url);
    let mut start: usize = chars.len();
    assert(chars@.take(chars@.len() as int) =~= chars@);
    while start > 0 && chars[start - 1] != '/'
        invariant
            start <= chars@.len(),
            last_segment_start(chars@) == last_segment_start(chars@.take(start as int)),
        decreases start,
    {
        assert(chars@.take(start as int).drop_last() =~= chars@.take(start as int - 1));
        start -= 1;
    }
    assert(last_segment_start(chars@) == start) by {
        if start > 0 {
            assert(chars@.take(start as int).last() == '/');
        }
    }
    let len: usize = chars.len();
    let mut dot: usize = len;
    while dot > start && chars[dot - 1] != '.'
        invariant
            start <= dot <= len,
            len == chars@.len(),
            forall|j: int| dot <= j < len ==> chars@[j] != '.',
        decreases dot,
    {
        dot -= 1;
    }
    let end: usize = if dot > start { dot - 1 } else { len };
    proof {
        if dot > start {
            lemma_last_dot_found(chars@, start as int, dot as int - 1, len as int);
        } else {
            lemma_no_dot(chars@, start as int, len as int);
        }
    }
    url.substring_char(start, end).to_owned()
}

/// A text without a `.` between `from` and `to` has no last dot there.
pub proof fn lemma_no_dot(s: Seq<char>, from: int, to: int)
    requires
        0 <= from <= to <= s.len(),
        forall|j: int| from <= j < to ==> s[j] != '.',
    ensures
        last_dot_between(s, from, to) == to,
    decreases to - from,
{
    if from < to {
        lemma_no_dot(s, from, to - 1);
    }
}

/// A `.` at `at` with none behind it up to `to` is the last dot between
/// `from` and `to`.
pub proof fn lemma_last_dot_found(s: Seq<char>, from: int, at: int, to: int)
    requires
        0 <= from <= at < to <= s.len(),
        s[at] == '.',
        forall|j: int| at < j < to ==> s[j] != '.',
    ensures
        last_dot_between(s, from, to) == at,
    decreases to - at,
{
    if at + 1 < to {
        lemma_last_dot_found(s, from, at, to - 1);
    }
}

/// What to clone, where to, and at which branch.
#[derive(Debug)]
pub struct CloneContext {
    pub url: String,
    pub dest: Option<PathPlan>,
    pub branch: Option<String>,
}

impl CloneContext {
    /// A request to clone `url` into `dest`, at `branch` if one is given.
    pub fn new(url: &str, dest: Option<PathPlan>, branch: Option<String>) -> (ctx: Self)
        ensures
            ctx.url@ == url@,
            ctx.dest == dest,
            ctx.branch == branch,
    {
        CloneContext { url: url.to_owned(), branch, dest }
    }
}

/// The language of a template: the one asked for, else the default of its
/// manifest, else none.
pub open spec fn resolved_lang(
    default_lang: Option<Seq<char>>,
    option: Option<Seq<char>>,
) -> Option<Seq<char>> {
    match option {
        Some(lang) => Some(lang),
        None => default_lang,
    }
}

/// The directory into which the repository at a URL is cloned: the name
/// that the URL gives, under the directory for temporary files.
pub open spec fn tmp_dir_from_url(url: Seq<char>) -> PathPlanView {
    PathPlanView::at(PathRootView::Temp).join(name_from_url(url))
}

/// Plans the directory into which the repository at a URL is cloned.
pub fn make_tmp_dir_from_url(url: &str) -> (dir: PathPlan)
    ensures
        dir@ == tmp_dir_from_url(url@),
{
    let name = make_name_from_url(url);
    PathPlan::at(PathRoot::Temp).join(name.as_str())
}

/// The directory in which a project is rendered before it is moved to its
/// place: `boilermaker` and the name, under the directory for temporary
/// files.
pub open spec fn work_dir_path(name: Seq<char>) -> PathPlanView {
    PathPlanView::at(PathRootView::Temp).join("boilermaker"@).join(name)
}

/// Plans the directory in which a project is rendered.
pub fn make_work_dir_path(name: &str) -> (dir: PathPlan)
    ensures
        dir@ == work_dir_path(name@),
{
    PathPlan::at(PathRoot::Temp).join("boilermaker").join(name)
}

/// The directory in which an installed template is kept: `.boilermaker`,
/// `templates` and the name, under the home directory.
pub open spec fn template_dir_path(name: Seq<char>) -> PathPlanView {
    PathPlanView::at(PathRootView::Home).join(".boilermaker"@).join("templates"@).join(name)
}

/// Plans the directory in which an installed template is kept.
pub fn get_template_dir_path(name: &str) -> (dir: PathPlan)
    ensures
        dir@ == template_dir_path(name@),
{
    PathPlan::at(PathRoot::Home).join(".boilermaker").join("templates").join(name)
}

/// The file that holds the manifest of the template in a directory.
pub open spec fn template_config_path(dir: PathPlanView) -> PathPlanView {
    dir.join("boilermaker.toml"@)
}

/// Plans the file that holds the manifest of the template in a directory.
pub fn get_template_config_path(dir: PathPlan) -> (file: PathPlan)
    ensures
        file@ == template_config_path(dir@),
{
    dir.join("boilermaker.toml")
}

/// The directory of a new project: its name under the directory that was
/// asked for, or under the current one.
pub open spec fn project_dir_path(project_name: Seq<char>, dir: Option<Seq<char>>) -> PathPlanView {
    match dir {
        Some(d) => PathPlanView::at(PathRootView::Given(d)).join(project_name),
        None => PathPlanView::at(PathRootView::Current).join(project_name),
    }
}

/// Plans the directory of a new project.
pub fn make_project_dir_path(project_name: &str, dir: &Option<String>) -> (path: PathPlan)
    ensures
        path@ == project_dir_path(project_name@, dir.deep_view()),
{
    match dir {
        Some(d) => PathPlan::given(d.as_str()).join(project_name),
        None => PathPlan::at(PathRoot::Current).join(project_name),
    }
}

/// The directory of a new project that is to be created: where it is, and
/// whether what is there is to be removed first.
#[derive(Debug)]
pub struct ProjectDir {
    pub path: PathPlan,
    pub replace: bool,
}

/// Decides how the directory of a new project is created: at its name
/// under the directory that was asked for, or under the current one. Where
/// something is there already, it is replaced if overwriting was asked for,
/// and a conflict otherwise.
pub fn create_project_dir(
    project_name: &str,
    dir: &Option<String>,
    overwrite: bool,
    present: bool,
) -> (made: Result<ProjectDir, PipelineError>)
    ensures
        match made {
            Ok(project) => {
                &&& !present || overwrite
                &&& project.path@ == project_dir_path(project_name@, dir.deep_view())
                &&& project.replace == present
            },
            Err(e) => {
                &&& present && !overwrite
                &&& e.kind == ErrorKind::PathConflict
                &&& e.phase == Phase::Output
            },
        },
{
    if present && !overwrite {
        return Err(
            PipelineError::new(
                ErrorKind::PathConflict,
                Phase::Output,
                "Project directory already exists. (Use --overwrite to force.)",
            ),
        );
    }
    Ok(ProjectDir { path: make_project_dir_path(project_name, dir), replace: present })
}

/// Finds the language of a template: the one that was asked for, else the
/// default of the manifest. Fails where neither is there.
pub fn get_lang(tpl_cnf: &TemplateConfig, option: &Option<String>) -> (lang: Result<
    String,
    PipelineError,
>)
    ensures
        match lang {
            Ok(l) => resolved_lang(tpl_cnf.project.default_lang.deep_view(), option.deep_view())
                == Some(l@),
            Err(e) => {
                &&& resolved_lang(tpl_cnf.project.default_lang.deep_view(), option.deep_view())
                    is None
                &&& e.kind == ErrorKind::LanguageUnresolved
                &&& e.phase == Phase::Config
            },
        },
{
    if let Some(lang_option) = option {
        return Ok(lang_option.clone());
    }
    if let Some(default_lang) = &tpl_cnf.project.default_lang {
        return Ok(default_lang.clone());
    }
    Err(
        PipelineError::new(
            ErrorKind::LanguageUnresolved,
            Phase::Config,
            "Can't find language. Pass `--lang` option or add `default_lang` to `boilermaker.toml`.",
        ),
    )
}

/// Adds the earlier templates and then the source under the name to a new
/// `minijinja::Environment` (`add_template_owned`), gets the last one back
/// (`get_template`) and renders it with the entries as context (`render`).
/// `None` where the engine fails: on a source that it cannot parse, or on
/// an error while rendering. The contract claims nothing of the text: a
/// source may ask the engine to show its own state, which it lists in no
/// fixed order, so the same arguments need not give the same text.
#[verifier::external_body]
fn render_with_jinja(
    earlier: &Vec<(String, String)>,
    name: &str,
    source: &str,
    entries: &Vec<(String, String)>,
) -> (out: Option<String>) {
    let mut jinja = minijinja::Environment::new();
    for (n, s) in earlier.iter() {
        jinja.add_template_owned(n.clone(), s.clone()).ok()?;
    }
    jinja.add_template_owned(name.to_string(), source.to_string()).ok()?;
    let values: std::collections::BTreeMap<&str, &str> = entries.iter().map(
        |(k, v)| (k.as_str(), v.as_str()),
    ).collect();
    jinja.get_template(name).ok()?.render(values).ok()
}

/// The failure for a file that the engine could not render.
pub open spec fn render_failure(name: Seq<char>) -> PipelineErrorView {
    PipelineErrorView { kind: ErrorKind::RenderFailure, phase: Phase::Render, detail: name }
}

/// Renders the files of a template, one at a time: the source of the file
/// with the given name is rendered with the variables of the context. The
/// files that were rendered before, each with its name and its source, are
/// known to the engine while it renders this one. What the text is, and
/// whether there is one, is the engine's; a failure names the file.
pub fn render_template_files(
    earlier: &Vec<(String, String)>,
    name: &str,
    source: &str,
    context: &StringMap,
) -> (out: Result<String, PipelineError>)
    ensures
        out matches Err(e) ==> e@ == render_failure(name@),
{
    match render_with_jinja(earlier, name, source, context.entries()) {
        Some(text) => Ok(text),
        None => Err(PipelineError::new(ErrorKind::RenderFailure, Phase::Render, name)),
    }
}

} // verus!
