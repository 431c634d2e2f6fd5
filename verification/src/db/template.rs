//! Installed templates: the rows, their identity digest and what a search
//! reports of them.

use crate::db::local_db::{
    distinct_by, matcher_of, records_of, result_id, CacheState, IndexedFile, StoreError,
};
use crate::util::crypto::{sha256_hash_string, sha256_hex};
use crate::util::string::{clone_opt_string, text_or_dash, trimmed};
use crate::util::time::{timestamp_cell, timestamp_to_iso8601};
use vstd::prelude::*;
use vstd::std_specs::convert::FromSpecImpl;
use vstd::string::StringExecFns;

verus! {

/// The separator that stands between the fields of an identity text.
pub open spec fn identity_separator() -> Seq<char> {
    seq!['~', '~']
}

/// The text of an optional field: empty when the field is absent.
pub open spec fn text_or_empty(field: Option<Seq<char>>) -> Seq<char> {
    match field {
        Some(text) => text,
        None => Seq::empty(),
    }
}

/// The identity text of a template: repo, name, lang, branch and subdir,
/// joined by the separator, absent fields left empty.
pub open spec fn template_identity_text(
    repo: Seq<char>,
    name: Seq<char>,
    lang: Seq<char>,
    branch: Option<Seq<char>>,
    subdir: Option<Seq<char>>,
) -> Seq<char> {
    joined_five(repo, name, lang, text_or_empty(branch), text_or_empty(subdir))
}

/// Builds the identity text of a template.
pub fn build_template_identity_text(
    repo: &String,
    name: &String,
    lang: &String,
    branch: &Option<String>,
    subdir: &Option<String>,
) -> (text: String)
    ensures
        text@ == template_identity_text(
            repo@,
            name@,
            lang@,
            branch.deep_view(),
            subdir.deep_view(),
        ),
{
    proof {
        reveal_strlit("~~");
        assert("~~"@ =~= identity_separator());
    }
    let mut text = String::new();
    text.append(repo.as_str());
    text.append("~~");
    text.append(name.as_str());
    text.append("~~");
    text.append(lang.as_str());
    text.append("~~");
    match branch {
        Some(b) => text.append(b.as_str()),
        None => {},
    }
    text.append("~~");
    match subdir {
        Some(s) => text.append(s.as_str()),
        None => {},
    }
    assert(text@ =~= template_identity_text(
        repo@,
        name@,
        lang@,
        branch.deep_view(),
        subdir.deep_view(),
    ));
    text
}

/// Two texts that differ stay different when the same text is put before
/// both and the same text behind both.
pub proof fn lemma_part_decides(before: Seq<char>, a: Seq<char>, b: Seq<char>, after: Seq<char>)
    requires
        a != b,
    ensures
        before + a + after != before + b + after,
{
    let x = before + a + after;
    let y = before + b + after;
    if x == y {
        assert(x.len() == y.len());
        assert(a.len() == b.len());
        assert(x.subrange(before.len() as int, (before.len() + a.len()) as int) =~= a);
        assert(y.subrange(before.len() as int, (before.len() + b.len()) as int) =~= b);
        assert(a =~= b);
    }
}

/// The fields by which a template is identified.
pub struct TemplateIdentity {
    pub repo: Seq<char>,
    pub name: Seq<char>,
    pub lang: Seq<char>,
    pub branch: Option<Seq<char>>,
    pub subdir: Option<Seq<char>>,
}

impl TemplateIdentity {
    /// The identity text of the fields.
    pub open spec fn text(self) -> Seq<char> {
        template_identity_text(self.repo, self.name, self.lang, self.branch, self.subdir)
    }

    /// The identity digest of the fields.
    pub open spec fn digest(self) -> Seq<char> {
        sha256_hex(self.text())
    }

    /// Whether `other` differs from these fields in exactly one field, and
    /// there in its text. An absent branch or subdir has the empty text.
    pub open spec fn differs_in_one_field(self, other: TemplateIdentity) -> bool {
        let repo = self.repo != other.repo;
        let name = self.name != other.name;
        let lang = self.lang != other.lang;
        let branch = text_or_empty(self.branch) != text_or_empty(other.branch);
        let subdir = text_or_empty(self.subdir) != text_or_empty(other.subdir);
        ||| repo && !name && !lang && !branch && !subdir
        ||| !repo && name && !lang && !branch && !subdir
        ||| !repo && !name && lang && !branch && !subdir
        ||| !repo && !name && !lang && branch && !subdir
        ||| !repo && !name && !lang && !branch && subdir
    }
}

/// Records with the same repo, name, lang, branch and subdir have the same
/// identity digest, however often and wherever it is computed.
pub proof fn lemma_identity_determines_digest(a: TemplateIdentity, b: TemplateIdentity)
    requires
        a.repo == b.repo,
        a.name == b.name,
        a.lang == b.lang,
        a.branch == b.branch,
        a.subdir == b.subdir,
    ensures
        a.text() == b.text(),
        a.digest() == b.digest(),
{
}

/// Five texts joined by the separator.
pub open spec fn joined_five(
    a: Seq<char>,
    b: Seq<char>,
    c: Seq<char>,
    d: Seq<char>,
    e: Seq<char>,
) -> Seq<char> {
    a + identity_separator() + b + identity_separator() + c + identity_separator() + d
        + identity_separator() + e
}

/// A change of the first of five joined texts changes the whole.
pub proof fn lemma_first_decides(
    a: Seq<char>,
    x: Seq<char>,
    b: Seq<char>,
    c: Seq<char>,
    d: Seq<char>,
    e: Seq<char>,
)
    requires
        a != x,
    ensures
        joined_five(a, b, c, d, e) != joined_five(x, b, c, d, e),
{
    let sep = identity_separator();
    let tail = sep + b + sep + c + sep + d + sep + e;
    let empty = Seq::<char>::empty();
    assert(joined_five(a, b, c, d, e) =~= empty + a + tail);
    assert(joined_five(x, b, c, d, e) =~= empty + x + tail);
    lemma_part_decides(empty, a, x, tail);
}

/// A change of the second of five joined texts changes the whole.
pub proof fn lemma_second_decides(
    a: Seq<char>,
    b: Seq<char>,
    x: Seq<char>,
    c: Seq<char>,
    d: Seq<char>,
    e: Seq<char>,
)
    requires
        b != x,
    ensures
        joined_five(a, b, c, d, e) != joined_five(a, x, c, d, e),
{
    let sep = identity_separator();
    let head = a + sep;
    let tail = sep + c + sep + d + sep + e;
    assert(joined_five(a, b, c, d, e) =~= head + b + tail);
    assert(joined_five(a, x, c, d, e) =~= head + x + tail);
    lemma_part_decides(head, b, x, tail);
}

/// A change of the third of five joined texts changes the whole.
pub proof fn lemma_third_decides(
    a: Seq<char>,
    b: Seq<char>,
    c: Seq<char>,
    x: Seq<char>,
    d: Seq<char>,
    e: Seq<char>,
)
    requires
        c != x,
    ensures
        joined_five(a, b, c, d, e) != joined_five(a, b, x, d, e),
{
    let sep = identity_separator();
    let head = a + sep + b + sep;
    let tail = sep + d + sep + e;
    assert(joined_five(a, b, c, d, e) =~= head + c + tail);
    assert(joined_five(a, b, x, d, e) =~= head + x + tail);
    lemma_part_decides(head, c, x, tail);
}

/// A change of the fourth of five joined texts changes the whole.
pub proof fn lemma_fourth_decides(
    a: Seq<char>,
    b: Seq<char>,
    c: Seq<char>,
    d: Seq<char>,
    x: Seq<char>,
    e: Seq<char>,
)
    requires
        d != x,
    ensures
        joined_five(a, b, c, d, e) != joined_five(a, b, c, x, e),
{
    let sep = identity_separator();
    let head = a + sep + b + sep + c + sep;
    let tail = sep + e;
    assert(joined_five(a, b, c, d, e) =~= head + d + tail);
    assert(joined_five(a, b, c, x, e) =~= head + x + tail);
    lemma_part_decides(head, d, x, tail);
}

/// A change of the last of five joined texts changes the whole.
pub proof fn lemma_fifth_decides(
    a: Seq<char>,
    b: Seq<char>,
    c: Seq<char>,
    d: Seq<char>,
    e: Seq<char>,
    x: Seq<char>,
)
    requires
        e != x,
    ensures
        joined_five(a, b, c, d, e) != joined_five(a, b, c, d, x),
{
    let sep = identity_separator();
    let head = a + sep + b + sep + c + sep + d + sep;
    let empty = Seq::<char>::empty();
    assert(joined_five(a, b, c, d, e) =~= head + e + empty);
    assert(joined_five(a, b, c, d, x) =~= head + x + empty);
    lemma_part_decides(head, e, x, empty);
}

/// A change of one field changes the text that is hashed to the identity
/// digest.
pub proof fn lemma_changed_field_changes_text(a: TemplateIdentity, b: TemplateIdentity)
    requires
        a.differs_in_one_field(b),
    ensures
        a.text() != b.text(),
{
    let ab = text_or_empty(a.branch);
    let bb = text_or_empty(b.branch);
    let au = text_or_empty(a.subdir);
    let bu = text_or_empty(b.subdir);
    assert(a.text() == joined_five(a.repo, a.name, a.lang, ab, au));
    assert(b.text() == joined_five(b.repo, b.name, b.lang, bb, bu));
    if a.repo != b.repo {
        lemma_first_decides(a.repo, b.repo, a.name, a.lang, ab, au);
    } else if a.name != b.name {
        lemma_second_decides(a.repo, a.name, b.name, a.lang, ab, au);
    } else if a.lang != b.lang {
        lemma_third_decides(a.repo, a.name, a.lang, b.lang, ab, au);
    } else if ab != bb {
        lemma_fourth_decides(a.repo, a.name, a.lang, ab, bb, au);
    } else {
        lemma_fifth_decides(a.repo, a.name, a.lang, ab, au, bu);
    }
}

/// A template as it is handed to the store.
#[derive(Debug)]
pub struct TemplateRow {
    pub name: String,
    pub lang: String,
    pub template_dir: String,
    pub repo: String,
    pub branch: Option<String>,
    pub subdir: Option<String>,
    pub sha256_hash: Option<String>,
}

/// The mathematical value of a [`TemplateRow`].
pub struct TemplateRowView {
    pub name: Seq<char>,
    pub lang: Seq<char>,
    pub template_dir: Seq<char>,
    pub repo: Seq<char>,
    pub branch: Option<Seq<char>>,
    pub subdir: Option<Seq<char>>,
    pub sha256_hash: Option<Seq<char>>,
}

impl TemplateRowView {
    /// The fields by which the row is identified.
    pub open spec fn identity(self) -> TemplateIdentity {
        TemplateIdentity {
            repo: self.repo,
            name: self.name,
            lang: self.lang,
            branch: self.branch,
            subdir: self.subdir,
        }
    }

    /// The digest that identifies the row.
    pub open spec fn identity_digest(self) -> Seq<char> {
        self.identity().digest()
    }

    /// The row with its digest filled in.
    pub open spec fn with_digest(self) -> TemplateRowView {
        TemplateRowView { sha256_hash: Some(self.identity_digest()), ..self }
    }
}

impl View for TemplateRow {
    type V = TemplateRowView;

    open spec fn view(&self) -> TemplateRowView {
        TemplateRowView {
            name: self.name@,
            lang: self.lang@,
            template_dir: self.template_dir@,
            repo: self.repo@,
            branch: self.branch.deep_view(),
            subdir: self.subdir.deep_view(),
            sha256_hash: self.sha256_hash.deep_view(),
        }
    }
}

impl DeepView for TemplateRow {
    type V = TemplateRowView;

    open spec fn deep_view(&self) -> TemplateRowView {
        self@
    }
}

impl Clone for TemplateRow {
    fn clone(&self) -> (copy: Self)
        ensures
            copy@ == self@,
    {
        TemplateRow {
            name: self.name.clone(),
            lang: self.lang.clone(),
            template_dir: self.template_dir.clone(),
            repo: self.repo.clone(),
            branch: clone_opt_string(&self.branch),
            subdir: clone_opt_string(&self.subdir),
            sha256_hash: clone_opt_string(&self.sha256_hash),
        }
    }
}

impl TemplateRow {
    /// Fills in the identity digest of the row.
    pub fn set_hash_string(self) -> (row: Self)
        ensures
            row@ == self@.with_digest(),
    {
        let hash = hash_template_row(&self);
        let mut row = self;
        row.sha256_hash = Some(hash);
        row
    }
}

/// The identity digest of a template row.
pub fn hash_template_row(row: &TemplateRow) -> (digest: String)
    ensures
        digest@ == row@.identity_digest(),
        digest@.len() == 64,
{
    let input = build_template_identity_text(
        &row.repo,
        &row.name,
        &row.lang,
        &row.branch,
        &row.subdir,
    );
    sha256_hash_string(input.as_str())
}

/// A template as the store holds it: the row, its id and its timestamps.
#[derive(Debug)]
pub struct TemplateResult {
    pub id: i64,
    pub name: String,
    pub lang: String,
    pub template_dir: String,
    pub repo: String,
    pub branch: Option<String>,
    pub subdir: Option<String>,
    pub sha256_hash: Option<String>,
    pub created_at: Option<i32>,
    pub updated_at: Option<i32>,
}

/// The mathematical value of a [`TemplateResult`].
pub struct TemplateResultView {
    pub id: i64,
    pub name: Seq<char>,
    pub lang: Seq<char>,
    pub template_dir: Seq<char>,
    pub repo: Seq<char>,
    pub branch: Option<Seq<char>>,
    pub subdir: Option<Seq<char>>,
    pub sha256_hash: Option<Seq<char>>,
    pub created_at: Option<i32>,
    pub updated_at: Option<i32>,
}

impl TemplateResultView {
    /// The row that was stored, without id and timestamps.
    pub open spec fn row(self) -> TemplateRowView {
        TemplateRowView {
            name: self.name,
            lang: self.lang,
            template_dir: self.template_dir,
            repo: self.repo,
            branch: self.branch,
            subdir: self.subdir,
            sha256_hash: self.sha256_hash,
        }
    }

    /// Whether the stored template has the name, lang and repo of `row`.
    pub open spec fn same_identity(self, row: TemplateRowView) -> bool {
        self.name == row.name && self.lang == row.lang && self.repo == row.repo
    }
}

impl TemplateRowView {
    /// The stored form of the row in place of `before`: the id and the time
    /// of creation stay, the time of the update is `now`.
    pub open spec fn updated(self, before: TemplateResultView, now: i32) -> TemplateResultView {
        TemplateResultView {
            id: before.id,
            name: self.name,
            lang: self.lang,
            template_dir: self.template_dir,
            repo: self.repo,
            branch: self.branch,
            subdir: self.subdir,
            sha256_hash: self.sha256_hash,
            created_at: before.created_at,
            updated_at: Some(now),
        }
    }

    /// The stored form of the row under an id, created at `now`.
    pub open spec fn stored(self, id: i64, now: i32) -> TemplateResultView {
        TemplateResultView {
            id,
            name: self.name,
            lang: self.lang,
            template_dir: self.template_dir,
            repo: self.repo,
            branch: self.branch,
            subdir: self.subdir,
            sha256_hash: self.sha256_hash,
            created_at: Some(now),
            updated_at: None,
        }
    }
}

impl View for TemplateResult {
    type V = TemplateResultView;

    open spec fn view(&self) -> TemplateResultView {
        TemplateResultView {
            id: self.id,
            name: self.name@,
            lang: self.lang@,
            template_dir: self.template_dir@,
            repo: self.repo@,
            branch: self.branch.deep_view(),
            subdir: self.subdir.deep_view(),
            sha256_hash: self.sha256_hash.deep_view(),
            created_at: self.created_at,
            updated_at: self.updated_at,
        }
    }
}

impl DeepView for TemplateResult {
    type V = TemplateResultView;

    open spec fn deep_view(&self) -> TemplateResultView {
        self@
    }
}

impl Clone for TemplateResult {
    fn clone(&self) -> (copy: Self)
        ensures
            copy@ == self@,
    {
        TemplateResult {
            id: self.id,
            name: self.name.clone(),
            lang: self.lang.clone(),
            template_dir: self.template_dir.clone(),
            repo: self.repo.clone(),
            branch: clone_opt_string(&self.branch),
            subdir: clone_opt_string(&self.subdir),
            sha256_hash: clone_opt_string(&self.sha256_hash),
            created_at: self.created_at,
            updated_at: self.updated_at,
        }
    }
}

impl From<TemplateResult> for TemplateRow {
    fn from(value: TemplateResult) -> (row: TemplateRow) {
        TemplateRow {
            name: value.name,
            lang: value.lang,
            template_dir: value.template_dir,
            repo: value.repo,
            branch: value.branch,
            subdir: value.subdir,
            sha256_hash: value.sha256_hash,
        }
    }
}

impl FromSpecImpl<TemplateResult> for TemplateRow {
    open spec fn obeys_from_spec() -> bool {
        true
    }

    open spec fn from_spec(value: TemplateResult) -> TemplateRow {
        TemplateRow {
            name: value.name,
            lang: value.lang,
            template_dir: value.template_dir,
            repo: value.repo,
            branch: value.branch,
            subdir: value.subdir,
            sha256_hash: value.sha256_hash,
        }
    }
}

/// What `find_templates` filters by. A filter that is absent admits every
/// template; those that are present must all hold.
#[derive(Debug)]
pub struct TemplateFindParams {
    pub ids: Option<Vec<i64>>,
    pub name: Option<String>,
    pub lang: Option<String>,
    pub repo: Option<String>,
    pub branch: Option<String>,
    pub subdir: Option<String>,
    pub sha256_hash: Option<String>,
}

/// The mathematical value of a [`TemplateFindParams`].
pub struct TemplateFindParamsView {
    pub ids: Option<Seq<i64>>,
    pub name: Option<Seq<char>>,
    pub lang: Option<Seq<char>>,
    pub repo: Option<Seq<char>>,
    pub branch: Option<Seq<char>>,
    pub subdir: Option<Seq<char>>,
    pub sha256_hash: Option<Seq<char>>,
}

/// Whether a text filter admits a field that holds `field`.
pub open spec fn text_filter_admits(filter: Option<Seq<char>>, field: Seq<char>) -> bool {
    filter matches Some(wanted) ==> wanted == field
}

/// Whether a text filter admits an optional field. A filter that is present
/// asks for a field that is present and equal.
pub open spec fn optional_filter_admits(
    filter: Option<Seq<char>>,
    field: Option<Seq<char>>,
) -> bool {
    filter matches Some(wanted) ==> field == Some(wanted)
}

impl TemplateFindParamsView {
    /// The templates that the filters admit.
    pub open spec fn admitted(self) -> spec_fn(TemplateResultView) -> bool {
        |t: TemplateResultView| self.admits(t)
    }

    /// Whether the filters admit a stored template. An empty list of ids
    /// filters nothing; the digest is not filtered by.
    pub open spec fn admits(self, t: TemplateResultView) -> bool {
        &&& (self.ids matches Some(ids) ==> ids.len() == 0 || ids.contains(t.id))
        &&& text_filter_admits(self.name, t.name)
        &&& text_filter_admits(self.lang, t.lang)
        &&& text_filter_admits(self.repo, t.repo)
        &&& optional_filter_admits(self.branch, t.branch)
        &&& optional_filter_admits(self.subdir, t.subdir)
    }
}

impl View for TemplateFindParams {
    type V = TemplateFindParamsView;

    open spec fn view(&self) -> TemplateFindParamsView {
        TemplateFindParamsView {
            ids: match self.ids {
                Some(ids) => Some(ids@),
                None => None,
            },
            name: self.name.deep_view(),
            lang: self.lang.deep_view(),
            repo: self.repo.deep_view(),
            branch: self.branch.deep_view(),
            subdir: self.subdir.deep_view(),
            sha256_hash: self.sha256_hash.deep_view(),
        }
    }
}

impl Default for TemplateFindParams {
    fn default() -> (params: Self)
        ensures
            params.ids is None,
            params.name is None,
            params.lang is None,
            params.repo is None,
            params.branch is None,
            params.subdir is None,
            params.sha256_hash is None,
    {
        TemplateFindParams {
            ids: None,
            name: None,
            lang: None,
            repo: None,
            branch: None,
            subdir: None,
            sha256_hash: None,
        }
    }
}

/// Options of `list_templates`. The store lists newest first whatever they
/// hold.
#[derive(Debug)]
pub struct ListTemplateOptions {
    pub order_by: Option<String>,
    pub limit: Option<u64>,
    pub offset: Option<u64>,
}

/// A stored template as a table shows it.
#[derive(Debug)]
pub struct TabledTemplateListResult {
    pub id: i64,
    pub name: String,
    pub lang: String,
    pub repo: String,
    pub created_at: String,
    pub updated_at: String,
}

/// Whether a timestamp, if there is one, lies between the epoch and the last
/// moment that can be written.
pub open spec fn timestamp_writable(timestamp: Option<i32>) -> bool {
    timestamp matches Some(t) ==> 0 <= t
}

/// The text of an optional timestamp for a table.
fn timestamp_text(timestamp: Option<i32>) -> (text: String)
    requires
        timestamp_writable(timestamp),
    ensures
        text@ == timestamp_cell(timestamp),
{
    match timestamp {
        Some(t) => timestamp_to_iso8601(t as i64),
        None => {
            proof {
                reveal_strlit("-");
                assert("-"@ =~= seq!['-']);
            }
            "-".to_owned()
        },
    }
}

impl TabledTemplateListResult {
    /// The table row of a stored template: id, name, lang and repo as they
    /// are, the timestamps as RFC 3339 text or a dash.
    pub fn from(row: TemplateResult) -> (out: Self)
        requires
            timestamp_writable(row.created_at),
            timestamp_writable(row.updated_at),
        ensures
            out.id == row.id,
            out.name@ == row.name@,
            out.lang@ == row.lang@,
            out.repo@ == row.repo@,
            out.created_at@ == timestamp_cell(row.created_at),
            out.updated_at@ == timestamp_cell(row.updated_at),
    {
        let created_at = timestamp_text(row.created_at);
        let updated_at = timestamp_text(row.updated_at);
        TabledTemplateListResult {
            id: row.id,
            name: row.name,
            lang: row.lang,
            repo: row.repo,
            created_at,
            updated_at,
        }
    }
}

/// Where a search result comes from.
#[derive(Debug, Clone, Copy, PartialEq, Eq, Structural)]
pub enum SearchResultKind {
    Template,
    Source,
}

impl SearchResultKind {
    /// The name of the kind as the store writes it.
    pub open spec fn text(self) -> Seq<char> {
        match self {
            SearchResultKind::Template => "template"@,
            SearchResultKind::Source => "source"@,
        }
    }

    /// The name of the kind: `template` or `source`.
    pub fn as_text(&self) -> (text: String)
        ensures
            text@ == self.text(),
    {
        match self {
            SearchResultKind::Template => "template".to_owned(),
            SearchResultKind::Source => "source".to_owned(),
        }
    }
}

/// One owner of matching content, as a search reports it.
#[derive(Debug)]
pub struct SearchResult {
    pub kind: SearchResultKind,
    pub id: i64,
    pub name: String,
    pub lang: String,
    pub repo: String,
    pub branch: Option<String>,
    pub subdir: Option<String>,
}

/// The mathematical value of a [`SearchResult`].
pub struct SearchResultView {
    pub kind: SearchResultKind,
    pub id: i64,
    pub name: Seq<char>,
    pub lang: Seq<char>,
    pub repo: Seq<char>,
    pub branch: Option<Seq<char>>,
    pub subdir: Option<Seq<char>>,
}

impl View for SearchResult {
    type V = SearchResultView;

    open spec fn view(&self) -> SearchResultView {
        SearchResultView {
            kind: self.kind,
            id: self.id,
            name: self.name@,
            lang: self.lang@,
            repo: self.repo@,
            branch: self.branch.deep_view(),
            subdir: self.subdir.deep_view(),
        }
    }
}

impl DeepView for SearchResult {
    type V = SearchResultView;

    open spec fn deep_view(&self) -> SearchResultView {
        self@
    }
}

impl Clone for SearchResult {
    fn clone(&self) -> (copy: Self)
        ensures
            copy@ == self@,
    {
        SearchResult {
            kind: self.kind,
            id: self.id,
            name: self.name.clone(),
            lang: self.lang.clone(),
            repo: self.repo.clone(),
            branch: clone_opt_string(&self.branch),
            subdir: clone_opt_string(&self.subdir),
        }
    }
}

impl TemplateResultView {
    /// What a search reports of an installed template.
    pub open spec fn search_result(self) -> SearchResultView {
        SearchResultView {
            kind: SearchResultKind::Template,
            id: self.id,
            name: self.name,
            lang: self.lang,
            repo: self.repo,
            branch: self.branch,
            subdir: self.subdir,
        }
    }
}

/// A search result as a table shows it.
#[derive(Debug)]
pub struct TabledSearchResult {
    pub kind: SearchResultKind,
    pub id: i64,
    pub name: String,
    pub lang: String,
    pub repo: String,
    pub branch: String,
    pub subdir: String,
}

/// The text that a table shows for an optional text: the text, or a dash
/// where there is none.
pub open spec fn text_cell(field: Option<Seq<char>>) -> Seq<char> {
    match field {
        Some(text) => text,
        None => seq!['-'],
    }
}

impl TabledSearchResult {
    /// The table row of a search result: absent branch and subdir become a
    /// dash, everything else stays.
    pub fn from(sr: SearchResult) -> (out: Self)
        ensures
            out.kind == sr.kind,
            out.id == sr.id,
            out.name@ == sr.name@,
            out.lang@ == sr.lang@,
            out.repo@ == sr.repo@,
            out.branch@ == text_cell(sr.branch.deep_view()),
            out.subdir@ == text_cell(sr.subdir.deep_view()),
    {
        TabledSearchResult {
            kind: sr.kind,
            id: sr.id,
            name: sr.name,
            lang: sr.lang,
            repo: sr.repo,
            branch: text_or_dash(sr.branch),
            subdir: text_or_dash(sr.subdir),
        }
    }
}

/// The order in which a store hands out templates.
#[derive(Debug, Clone, Copy, PartialEq, Eq, Structural)]
pub enum TemplateOrder {
    /// By name, smallest first.
    NameAscending,
    /// By the time of creation, latest first; templates without one last.
    NewestFirst,
}

/// Whether one text comes before another, or is equal to it, when texts are
/// compared character by character.
pub open spec fn text_le(a: Seq<char>, b: Seq<char>) -> bool
    decreases a.len(),
{
    if a.len() == 0 {
        true
    } else if b.len() == 0 {
        false
    } else if a[0] != b[0] {
        (a[0] as u32) < (b[0] as u32)
    } else {
        text_le(a.drop_first(), b.drop_first())
    }
}

/// The time of creation as a number: below every timestamp where there is
/// none.
pub open spec fn creation_key(t: TemplateResultView) -> int {
    match t.created_at {
        Some(at) => at as int,
        None => i32::MIN - 1,
    }
}

/// Whether `a` may stand before `b` in the given order.
pub open spec fn in_order(order: TemplateOrder, a: TemplateResultView, b: TemplateResultView) -> bool {
    match order {
        TemplateOrder::NameAscending => text_le(a.name, b.name),
        TemplateOrder::NewestFirst => creation_key(a) >= creation_key(b),
    }
}

/// Whether a list of templates is in the given order.
pub open spec fn ordered(order: TemplateOrder, list: Seq<TemplateResultView>) -> bool {
    forall|i: int, j: int| 0 <= i < j < list.len() ==> in_order(order, list[i], list[j])
}

/// What a store offers for installed templates.
pub trait TemplateMethods: CacheState {
    /// Looks for a template with the name, lang and repo of `row`.
    fn check_unique(&self, row: &TemplateRow) -> (found: Result<Option<TemplateResult>, StoreError>)
        ensures
            match found {
                Ok(Some(t)) => self.state().templates.contains(t@) && t@.same_identity(row@),
                Ok(None) => !self.state().has_identity(row@),
                Err(_) => true,
            },
            self.dependable() && self.state().schema ==> found is Ok,
    ;

    /// Adds a template and returns the id that it got.
    fn create_template(&mut self, row: TemplateRow, now: i32) -> (made: Result<i64, StoreError>)
        ensures
            match made {
                Ok(id) => {
                    &&& !old(self).state().has_template(id)
                    &&& final(self).state() == old(self).state().with_template(
                        row@.stored(id, now),
                    )
                },
                Err(_) => final(self).state() == old(self).state(),
            },
            old(self).dependable() && old(self).state().schema && old(self).room() >= 1
                ==> made is Ok,
            final(self).dependable() == old(self).dependable(),
            final(self).room() + 1 >= old(self).room(),
            old(self).state().ids_distinct() ==> final(self).state().ids_distinct(),
    ;

    /// Removes the template with the id, if there is one, and returns the id.
    fn delete_template(&mut self, id: i64) -> (gone: Result<i64, StoreError>)
        ensures
            match gone {
                Ok(returned) => {
                    &&& returned == id
                    &&& final(self).state() == old(self).state().without_template(id)
                },
                Err(_) => final(self).state() == old(self).state(),
            },
            old(self).dependable() && old(self).state().schema ==> gone is Ok,
            final(self).dependable() == old(self).dependable(),
            final(self).room() >= old(self).room(),
            old(self).state().ids_distinct() ==> final(self).state().ids_distinct(),
    ;

    /// The templates that the filters admit, by name.
    fn find_templates(&self, query: TemplateFindParams) -> (found: Result<
        Vec<TemplateResult>,
        StoreError,
    >)
        ensures
            found matches Ok(list) ==> {
                &&& list.deep_view().to_multiset() == self.state().templates.filter(
                    query@.admitted(),
                ).to_multiset()
                &&& ordered(TemplateOrder::NameAscending, list.deep_view())
            },
            self.dependable() && self.state().schema ==> found is Ok,
    ;

    /// The template with the id.
    fn get_template(&self, id: i64) -> (found: Result<Option<TemplateResult>, StoreError>)
        ensures
            match found {
                Ok(Some(t)) => self.state().templates.contains(t@) && t.id == id,
                Ok(None) => !self.state().has_template(id),
                Err(_) => true,
            },
            self.dependable() && self.state().schema ==> found is Ok,
    ;

    /// Adds one content record for each file, under the template with the
    /// id. Where no template has the id, it fails and adds nothing. Where
    /// it fails on the way, the records of the files before the failure
    /// may stay.
    fn index_template(&mut self, id: i64, files: &Vec<IndexedFile>, now: i32) -> (done: Result<
        (),
        StoreError,
    >)
        ensures
            match done {
                Ok(()) => {
                    &&& old(self).state().has_template(id)
                    &&& final(self).state() == old(self).state().with_template_content(
                        records_of(files.deep_view(), id, now),
                    )
                },
                Err(_) => exists|n: int|
                    0 <= n <= files.len() && final(self).state() == old(
                        self,
                    ).state().with_template_content(
                        records_of(#[trigger] files.deep_view().take(n), id, now),
                    ),
            },
            !old(self).state().has_template(id) ==> done is Err && final(self).state() == old(
                self,
            ).state(),
            old(self).dependable() && old(self).state().schema && old(self).state().has_template(
                id,
            ) ==> done is Ok,
            final(self).dependable() == old(self).dependable(),
            final(self).room() >= old(self).room(),
            old(self).state().ids_distinct() ==> final(self).state().ids_distinct(),
    ;

    /// All templates, newest first.
    fn list_templates(&self, opts: Option<ListTemplateOptions>) -> (found: Result<
        Vec<TemplateResult>,
        StoreError,
    >)
        ensures
            found matches Ok(list) ==> {
                &&& list.deep_view().to_multiset() == self.state().templates.to_multiset()
                &&& ordered(TemplateOrder::NewestFirst, list.deep_view())
            },
            self.dependable() && self.state().schema ==> found is Ok,
    ;

    /// Whether the table of templates has been created.
    fn template_table_exists(&self) -> (found: Result<bool, StoreError>)
        ensures
            found matches Ok(exists) ==> exists == self.state().schema,
            self.dependable() ==> found is Ok,
    ;

    /// Replaces the row of the template with the id, keeps its time of
    /// creation and notes the time of the update. Returns the id.
    fn update_template(&mut self, id: i64, row: TemplateRow, now: i32) -> (done: Result<
        i64,
        StoreError,
    >)
        ensures
            match done {
                Ok(returned) => {
                    &&& returned == id
                    &&& final(self).state() == old(self).state().with_updated(id, row@, now)
                },
                Err(_) => final(self).state() == old(self).state(),
            },
            old(self).dependable() && old(self).state().schema ==> done is Ok,
            final(self).dependable() == old(self).dependable(),
            final(self).room() >= old(self).room(),
            old(self).state().ids_distinct() ==> final(self).state().ids_distinct(),
    ;

    /// The installed templates with content that matches the trimmed term,
    /// each once: where the ids of the store are distinct, no id is reported
    /// twice.
    fn search_templates(&self, term: &str) -> (found: Result<Vec<SearchResult>, StoreError>)
        ensures
            found matches Ok(list) ==> list.deep_view().to_multiset()
                == self.state().template_hits(trimmed(term@), matcher_of::<Self>()).to_multiset(),
            found matches Ok(list) ==> list.deep_view() == self.local_answer(trimmed(term@)),
            found matches Ok(list) ==> (self.state().ids_distinct() ==> distinct_by(
                list.deep_view(),
                result_id(),
            )),
            self.dependable() && self.state().schema ==> found is Ok,
    ;

    /// The templates of sources with content that matches the trimmed term,
    /// each once; only those of sources with the given name, if one is
    /// given.
    fn search_sources(&self, source_name: Option<String>, term: &str) -> (found: Result<
        Vec<SearchResult>,
        StoreError,
    >)
        ensures
            found matches Ok(list) ==> list.deep_view().to_multiset() == self.state().source_hits(
                source_name.deep_view(),
                trimmed(term@),
                matcher_of::<Self>(),
            ).to_multiset(),
            found matches Ok(list) ==> list.deep_view() == self.sources_answer(
                source_name.deep_view(),
                trimmed(term@),
            ),
            found matches Ok(list) ==> (self.state().ids_distinct() ==> distinct_by(
                list.deep_view(),
                result_id(),
            )),
            self.dependable() && self.state().schema ==> found is Ok,
    ;
}

} // verus!
