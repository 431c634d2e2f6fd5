//! Sources: named remote collections of templates, and the templates that
//! they list.

use crate::db::local_db::{
    lists_sources, records_of, CacheState, CacheView, ContentView, IndexedFile, IndexedFileView, SourceRecordView,
    SourceTemplateRecordView, StoreError,
};
use crate::db::template::{
    build_template_identity_text, identity_separator, text_cell, SearchResultKind,
    SearchResultView, TemplateIdentity,
};
use crate::template::{make_name_from_url, name_from_url};
use crate::util::crypto::{sha256_hash_string, sha256_hex};
use crate::util::map::StringMap;
use crate::util::string::{chars_of, clone_opt_string, text_or_dash};
use unicode_truncate::UnicodeTruncateStr;
use vstd::prelude::*;
use vstd::string::StringExecFns;

verus! {

/// The identity text of a source: name, backend and coordinate, joined by
/// the separator.
pub open spec fn source_identity_text(
    name: Seq<char>,
    backend: Seq<char>,
    coordinate: Seq<char>,
) -> Seq<char> {
    name + identity_separator() + backend + identity_separator() + coordinate
}

/// A source as it is handed to the store and listed by it.
#[derive(Debug)]
pub struct SourceRow {
    pub name: String,
    pub backend: String,
    pub coordinate: String,
    pub description: Option<String>,
    pub sha256_hash: Option<String>,
}

/// The mathematical value of a [`SourceRow`].
pub struct SourceRowView {
    pub name: Seq<char>,
    pub backend: Seq<char>,
    pub coordinate: Seq<char>,
    pub description: Option<Seq<char>>,
    pub sha256_hash: Option<Seq<char>>,
}

impl SourceRowView {
    /// The digest that identifies the source.
    pub open spec fn identity_digest(self) -> Seq<char> {
        sha256_hex(source_identity_text(self.name, self.backend, self.coordinate))
    }

    /// The source with its digest filled in.
    pub open spec fn with_digest(self) -> SourceRowView {
        SourceRowView { sha256_hash: Some(self.identity_digest()), ..self }
    }
}

impl View for SourceRow {
    type V = SourceRowView;

    open spec fn view(&self) -> SourceRowView {
        SourceRowView {
            name: self.name@,
            backend: self.backend@,
            coordinate: self.coordinate@,
            description: self.description.deep_view(),
            sha256_hash: self.sha256_hash.deep_view(),
        }
    }
}

impl DeepView for SourceRow {
    type V = SourceRowView;

    open spec fn deep_view(&self) -> SourceRowView {
        self@
    }
}

impl Clone for SourceRow {
    fn clone(&self) -> (copy: Self)
        ensures
            copy@ == self@,
    {
        SourceRow {
            name: self.name.clone(),
            backend: self.backend.clone(),
            coordinate: self.coordinate.clone(),
            description: clone_opt_string(&self.description),
            sha256_hash: clone_opt_string(&self.sha256_hash),
        }
    }
}

impl SourceRow {
    /// Fills in the identity digest of the source.
    pub fn set_hash_string(self) -> (row: Self)
        ensures
            row@ == self@.with_digest(),
    {
        let hash = hash_source_row(&self);
        let mut row = self;
        row.sha256_hash = Some(hash);
        row
    }
}

/// The identity digest of a source.
pub fn hash_source_row(row: &SourceRow) -> (digest: String)
    ensures
        digest@ == row@.identity_digest(),
        digest@.len() == 64,
{
    proof {
        reveal_strlit("~~");
        assert("~~"@ =~= identity_separator());
    }
    let mut input = String::new();
    input.append(row.name.as_str());
    input.append("~~");
    input.append(row.backend.as_str());
    input.append("~~");
    input.append(row.coordinate.as_str());
    assert(input@ =~= source_identity_text(row.name@, row.backend@, row.coordinate@));
    sha256_hash_string(input.as_str())
}

/// A template of a source before the source has an id.
#[derive(Debug)]
pub struct PartialSourceTemplateRow {
    pub repo: String,
    pub lang: String,
    pub name: String,
    pub branch: Option<String>,
    pub subdir: Option<String>,
}

/// The mathematical value of a [`PartialSourceTemplateRow`].
pub struct PartialSourceTemplateRowView {
    pub repo: Seq<char>,
    pub lang: Seq<char>,
    pub name: Seq<char>,
    pub branch: Option<Seq<char>>,
    pub subdir: Option<Seq<char>>,
}

impl PartialSourceTemplateRowView {
    /// The row of this template under a source, with its digest.
    pub open spec fn under(self, source_id: i64) -> SourceTemplateRowView {
        SourceTemplateRowView {
            source_id,
            repo: self.repo,
            lang: self.lang,
            name: self.name,
            branch: self.branch,
            subdir: self.subdir,
            sha256_hash: None,
        }.with_digest()
    }
}

impl View for PartialSourceTemplateRow {
    type V = PartialSourceTemplateRowView;

    open spec fn view(&self) -> PartialSourceTemplateRowView {
        PartialSourceTemplateRowView {
            repo: self.repo@,
            lang: self.lang@,
            name: self.name@,
            branch: self.branch.deep_view(),
            subdir: self.subdir.deep_view(),
        }
    }
}

impl DeepView for PartialSourceTemplateRow {
    type V = PartialSourceTemplateRowView;

    open spec fn deep_view(&self) -> PartialSourceTemplateRowView {
        self@
    }
}

impl Clone for PartialSourceTemplateRow {
    fn clone(&self) -> (copy: Self)
        ensures
            copy@ == self@,
    {
        PartialSourceTemplateRow {
            repo: self.repo.clone(),
            lang: self.lang.clone(),
            name: self.name.clone(),
            branch: clone_opt_string(&self.branch),
            subdir: clone_opt_string(&self.subdir),
        }
    }
}

/// A template that a source lists.
#[derive(Debug)]
pub struct SourceTemplateRow {
    pub source_id: i64,
    pub repo: String,
    pub lang: String,
    pub name: String,
    pub branch: Option<String>,
    pub subdir: Option<String>,
    pub sha256_hash: Option<String>,
}

/// The mathematical value of a [`SourceTemplateRow`].
pub struct SourceTemplateRowView {
    pub source_id: i64,
    pub repo: Seq<char>,
    pub lang: Seq<char>,
    pub name: Seq<char>,
    pub branch: Option<Seq<char>>,
    pub subdir: Option<Seq<char>>,
    pub sha256_hash: Option<Seq<char>>,
}

impl SourceTemplateRowView {
    /// The fields by which the template is identified.
    pub open spec fn identity(self) -> TemplateIdentity {
        TemplateIdentity {
            repo: self.repo,
            name: self.name,
            lang: self.lang,
            branch: self.branch,
            subdir: self.subdir,
        }
    }

    /// The digest that identifies the template.
    pub open spec fn identity_digest(self) -> Seq<char> {
        self.identity().digest()
    }

    /// The template with its digest filled in.
    pub open spec fn with_digest(self) -> SourceTemplateRowView {
        SourceTemplateRowView { sha256_hash: Some(self.identity_digest()), ..self }
    }

    /// What a search reports of the template under its id.
    pub open spec fn search_result(self, id: i64) -> SearchResultView {
        SearchResultView {
            kind: SearchResultKind::Source,
            id,
            name: self.name,
            lang: self.lang,
            repo: self.repo,
            branch: self.branch,
            subdir: self.subdir,
        }
    }
}

impl View for SourceTemplateRow {
    type V = SourceTemplateRowView;

    open spec fn view(&self) -> SourceTemplateRowView {
        SourceTemplateRowView {
            source_id: self.source_id,
            repo: self.repo@,
            lang: self.lang@,
            name: self.name@,
            branch: self.branch.deep_view(),
            subdir: self.subdir.deep_view(),
            sha256_hash: self.sha256_hash.deep_view(),
        }
    }
}

impl DeepView for SourceTemplateRow {
    type V = SourceTemplateRowView;

    open spec fn deep_view(&self) -> SourceTemplateRowView {
        self@
    }
}

impl Clone for SourceTemplateRow {
    fn clone(&self) -> (copy: Self)
        ensures
            copy@ == self@,
    {
        SourceTemplateRow {
            source_id: self.source_id,
            repo: self.repo.clone(),
            lang: self.lang.clone(),
            name: self.name.clone(),
            branch: clone_opt_string(&self.branch),
            subdir: clone_opt_string(&self.subdir),
            sha256_hash: clone_opt_string(&self.sha256_hash),
        }
    }
}

impl SourceTemplateRow {
    /// Fills in the identity digest of the template.
    pub fn set_hash_string(self) -> (row: Self)
        ensures
            row@ == self@.with_digest(),
    {
        let hash = hash_source_template_row(&self);
        let mut row = self;
        row.sha256_hash = Some(hash);
        row
    }

    /// The row of a partial template under a source, with its digest.
    pub fn from_partial(source_id: i64, partial: &PartialSourceTemplateRow) -> (row: Self)
        ensures
            row@ == partial@.under(source_id),
    {
        SourceTemplateRow {
            source_id,
            repo: partial.repo.clone(),
            lang: partial.lang.clone(),
            name: partial.name.clone(),
            branch: clone_opt_string(&partial.branch),
            subdir: clone_opt_string(&partial.subdir),
            sha256_hash: None,
        }.set_hash_string()
    }
}

/// The identity digest of a template of a source.
pub fn hash_source_template_row(row: &SourceTemplateRow) -> (digest: String)
    ensures
        digest@ == row@.identity_digest(),
        digest@.len() == 64,
{
    let input = build_template_identity_text(
        &row.repo,
        &row.name,
        &row.lang,
        &row.branch,
        &row.subdir,
    );
    sha256_hash_string(input.as_str())
}

/// What is missing from the description of a listed template.
#[derive(Debug, Clone, Copy, PartialEq, Eq, Structural)]
pub enum MissingField {
    Repo,
    Lang,
}

/// The value of a map under a key, if it has one.
pub open spec fn map_get(m: Map<Seq<char>, Seq<char>>, key: Seq<char>) -> Option<Seq<char>> {
    if m.contains_key(key) {
        Some(m[key])
    } else {
        None
    }
}

/// The row that a map with the keys `repo`, `lang`, `branch` and `subdir`
/// describes, or the first of `repo` and `lang` that it lacks. The name is
/// derived from the repo.
pub open spec fn source_template_row_of(source_id: i64, m: Map<Seq<char>, Seq<char>>) -> Result<
    SourceTemplateRowView,
    MissingField,
> {
    if !m.contains_key("repo"@) {
        Err(MissingField::Repo)
    } else if !m.contains_key("lang"@) {
        Err(MissingField::Lang)
    } else {
        Ok(
            SourceTemplateRowView {
                source_id,
                repo: m["repo"@],
                lang: m["lang"@],
                name: name_from_url(m["repo"@]),
                branch: map_get(m, "branch"@),
                subdir: map_get(m, "subdir"@),
                sha256_hash: None,
            }.with_digest(),
        )
    }
}

/// A copy of the value of a map under a key.
pub fn get_cloned(m: &StringMap, key: &str) -> (value: Option<String>)
    ensures
        value.deep_view() == map_get(m@, key@),
{
    match m.get(key) {
        Some(v) => Some(v.clone()),
        None => None,
    }
}

/// Makes the row of a listed template from a map of its fields.
pub fn hashmap_into_source_template_row(source_id: i64, m: &StringMap) -> (row: Result<
    SourceTemplateRow,
    MissingField,
>)
    ensures
        match row {
            Ok(r) => source_template_row_of(source_id, m@) == Ok::<
                SourceTemplateRowView,
                MissingField,
            >(r@),
            Err(e) => source_template_row_of(source_id, m@) == Err::<
                SourceTemplateRowView,
                MissingField,
            >(e),
        },
{
    let repo = match get_cloned(m, "repo") {
        Some(repo) => repo,
        None => {
            return Err(MissingField::Repo);
        },
    };
    let lang = match get_cloned(m, "lang") {
        Some(lang) => lang,
        None => {
            return Err(MissingField::Lang);
        },
    };
    let name = make_name_from_url(repo.as_str());
    let row = SourceTemplateRow {
        source_id,
        repo,
        lang,
        name,
        branch: get_cloned(m, "branch"),
        subdir: get_cloned(m, "subdir"),
        sha256_hash: None,
    };
    Ok(row.set_hash_string())
}

/// The ids that the store gave to a source and to its templates.
#[derive(Debug)]
pub struct AddSourceResult {
    pub source_id: i64,
    pub source_template_ids: Vec<i64>,
}

/// The width, in columns, to which a table pads the coordinate of a source.
pub const COORDINATE_WIDTH: usize = 80;

/// Whether a character is a printable character of ASCII: it takes one
/// column, and it joins no other character.
pub open spec fn is_printable_ascii(c: char) -> bool {
    0x20 <= c as u32 <= 0x7E
}

/// Whether a text is made of printable characters of ASCII alone.
pub open spec fn all_printable_ascii(text: Seq<char>) -> bool {
    forall|i: int| 0 <= i < text.len() ==> is_printable_ascii(#[trigger] text[i])
}

/// So many blanks.
pub open spec fn blanks(n: int) -> Seq<char> {
    Seq::new(
        if n > 0 {
            n as nat
        } else {
            0
        },
        |i: int| ' ',
    )
}

/// A text of printable ASCII brought to a width, left-aligned: a text that
/// is narrower gets blanks on the right; one that is wider is cut to the
/// width if `truncate` holds, and stays as it is otherwise.
pub open spec fn padded_left(text: Seq<char>, width: int, truncate: bool) -> Seq<char> {
    if text.len() < width {
        text + blanks(width - text.len())
    } else if truncate {
        text.take(width)
    } else {
        text
    }
}

/// Calls `unicode_pad` of the `unicode-truncate` crate with left alignment.
/// The contract is for texts of printable ASCII alone, where every
/// character is one column wide and stands for itself: the crate cuts such
/// a text after `width` characters, or fills it up with blanks. The width
/// is kept within `isize::MAX`, beyond which the crate's sum of lengths may
/// overflow.
#[verifier::external_body]
fn pad_left(text: &str, width: usize, truncate: bool) -> (padded: String)
    requires
        all_printable_ascii(text@),
        width <= isize::MAX,
    ensures
        padded@ == padded_left(text@, width as int, truncate),
{
    text.unicode_pad(width, unicode_truncate::Alignment::Left, truncate).into_owned()
}

/// Whether a text is made of printable characters of ASCII alone.
pub fn is_plain_text(text: &str) -> (plain: bool)
    ensures
        plain == all_printable_ascii(text@),
{
    let chars = chars_of(text);
    let mut i: usize = 0;
    while i < chars.len()
        invariant
            i <= chars@.len(),
            chars@ == text@,
            forall|j: int| 0 <= j < i ==> is_printable_ascii(#[trigger] chars@[j]),
        decreases chars@.len() - i,
    {
        let n: u32 = chars[i] as u32;
        if n < 0x20 || n > 0x7E {
            assert(!is_printable_ascii(text@[i as int]));
            return false;
        }
        i += 1;
    }
    true
}

/// The coordinate of a source as a table shows it: brought to
/// [`COORDINATE_WIDTH`] columns where it is printable ASCII, and as it is
/// otherwise.
pub open spec fn shown_coordinate(text: Seq<char>) -> Seq<char> {
    if all_printable_ascii(text) {
        padded_left(text, COORDINATE_WIDTH as int, true)
    } else {
        text
    }
}

/// Brings the coordinate of a source to the width of its column. A
/// coordinate that holds anything but printable ASCII is left as it is.
pub fn pad_coordinate(text: &str) -> (shown: String)
    ensures
        shown@ == shown_coordinate(text@),
{
    if is_plain_text(text) {
        pad_left(text, COORDINATE_WIDTH, true)
    } else {
        text.to_owned()
    }
}

/// A source as a table shows it.
#[derive(Debug)]
pub struct TabledSourceRow {
    pub name: String,
    pub backend: String,
    pub coordinate: String,
    pub description: String,
}

/// Whether a row of a table shows a source.
pub open spec fn tabled_source(out: TabledSourceRow, row: SourceRowView) -> bool {
    &&& out.name@ == row.name
    &&& out.backend@ == row.backend
    &&& out.coordinate@ == shown_coordinate(row.coordinate)
    &&& out.description@ == text_cell(row.description)
}

impl TabledSourceRow {
    /// The table row of a source: name and backend as they are, the
    /// coordinate brought to [`COORDINATE_WIDTH`] columns where it is
    /// printable ASCII, the description or a dash.
    pub fn from(row: SourceRow) -> (out: Self)
        ensures
            tabled_source(out, row@),
    {
        let coordinate = pad_coordinate(row.coordinate.as_str());
        TabledSourceRow {
            name: row.name,
            backend: row.backend,
            description: text_or_dash(row.description),
            coordinate,
        }
    }
}

/// A template of a source as it is handed to the store: the files of its
/// payload, and its row.
#[derive(Debug)]
pub struct StagedTemplate {
    pub files: Vec<IndexedFile>,
    pub row: PartialSourceTemplateRow,
}

/// The mathematical value of a [`StagedTemplate`].
pub struct StagedTemplateView {
    pub files: Seq<IndexedFileView>,
    pub row: PartialSourceTemplateRowView,
}

impl View for StagedTemplate {
    type V = StagedTemplateView;

    open spec fn view(&self) -> StagedTemplateView {
        StagedTemplateView { files: self.files.deep_view(), row: self.row@ }
    }
}

impl DeepView for StagedTemplate {
    type V = StagedTemplateView;

    open spec fn deep_view(&self) -> StagedTemplateView {
        self@
    }
}

/// The rows that staged templates become under a source, with the ids
/// that they got.
pub open spec fn staged_records(
    staged: Seq<StagedTemplateView>,
    source_id: i64,
    ids: Seq<i64>,
    now: i32,
) -> Seq<SourceTemplateRecordView> {
    Seq::new(
        staged.len(),
        |i: int|
            SourceTemplateRecordView {
                id: ids[i],
                row: staged[i].row.under(source_id),
                created_at: now,
            },
    )
}

/// The content records of staged templates, template after template.
pub open spec fn staged_content(staged: Seq<StagedTemplateView>, ids: Seq<i64>, now: i32) -> Seq<
    ContentView,
>
    decreases staged.len(),
{
    if staged.len() == 0 {
        Seq::empty()
    } else {
        staged_content(staged.drop_last(), ids.drop_last(), now) + records_of(
            staged.last().files,
            ids.last(),
            now,
        )
    }
}

/// Whether the ids are new to the table of source templates, and distinct.
pub open spec fn fresh_ids(before: CacheView, ids: Seq<i64>) -> bool {
    &&& ids.no_duplicates()
    &&& forall|i: int| 0 <= i < ids.len() ==> !before.has_source_template(#[trigger] ids[i])
}

/// The room that a source with so many templates takes: one row for the
/// source, and one for each template.
pub open spec fn rows_of(templates: nat) -> nat {
    if templates == 0 {
        1
    } else {
        templates
    }
}

/// What a store offers for sources.
pub trait SourceMethods: CacheState {
    /// Adds a source with its templates and their content, all or nothing.
    fn add_source(&mut self, source_row: SourceRow, staged: Vec<StagedTemplate>, now: i32) -> (done:
        Result<AddSourceResult, StoreError>)
        ensures
            match done {
                Ok(added) => {
                    let before = old(self).state();
                    let ids = added.source_template_ids@;
                    &&& !before.has_source(added.source_id)
                    &&& ids.len() == staged.len()
                    &&& fresh_ids(before, ids)
                    &&& final(self).state() == before.with_source(
                        SourceRecordView { id: added.source_id, row: source_row@, created_at: now },
                        staged_records(staged.deep_view(), added.source_id, ids, now),
                        staged_content(staged.deep_view(), ids, now),
                    )
                },
                Err(_) => final(self).state() == old(self).state(),
            },
            old(self).dependable() && old(self).state().schema && old(self).room() >= rows_of(
                staged@.len(),
            ) ==> done is Ok,
            final(self).dependable() == old(self).dependable(),
            final(self).room() + rows_of(staged@.len()) >= old(self).room(),
            old(self).state().ids_distinct() ==> final(self).state().ids_distinct(),
    ;

    /// The sources, newest first.
    fn list_sources(&self) -> (found: Result<Vec<SourceRow>, StoreError>)
        ensures
            found matches Ok(list) ==> lists_sources(list.deep_view(), self.state().sources),
            self.dependable() && self.state().schema ==> found is Ok,
    ;
}

} // verus!
