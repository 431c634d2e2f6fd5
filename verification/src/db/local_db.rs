//! The state of a cache store, and what every store offers.

use crate::db::source::{SourceMethods, SourceRowView, SourceTemplateRowView};
use crate::db::template::{SearchResultView, TemplateMethods, TemplateResultView, TemplateRowView};
use vstd::prelude::*;

verus! {

/// Why the store did not do what it was asked.
#[derive(Debug)]
pub enum StoreError {
    /// The tables have not been created.
    SchemaMissing,
    /// No row has the id that was given.
    NotFound,
    /// No id is left to give to a new row.
    Exhausted,
    /// The storage behind the store failed.
    Backend(String),
}

/// One file of a template, as it is handed to the store for indexing.
#[derive(Debug)]
pub struct IndexedFile {
    pub path: String,
    pub content: String,
}

/// The mathematical value of an [`IndexedFile`].
pub struct IndexedFileView {
    pub path: Seq<char>,
    pub content: Seq<char>,
}

impl IndexedFileView {
    /// The content record that the file becomes under an owner.
    pub open spec fn record(self, owner_id: i64, now: i32) -> ContentView {
        ContentView { owner_id, file_path: self.path, content: self.content, created_at: now }
    }
}

impl View for IndexedFile {
    type V = IndexedFileView;

    open spec fn view(&self) -> IndexedFileView {
        IndexedFileView { path: self.path@, content: self.content@ }
    }
}

impl DeepView for IndexedFile {
    type V = IndexedFileView;

    open spec fn deep_view(&self) -> IndexedFileView {
        self@
    }
}

/// The files that paths and contents make, pair by pair.
pub open spec fn files_of(paths: Seq<Seq<char>>, contents: Seq<Seq<char>>) -> Seq<IndexedFileView> {
    Seq::new(paths.len(), |i: int| IndexedFileView { path: paths[i], content: contents[i] })
}

/// Pairs each path with the content that was read from it.
pub(crate) fn pair_files(paths: &Vec<String>, contents: &Vec<String>) -> (files: Vec<IndexedFile>)
    requires
        paths@.len() == contents@.len(),
    ensures
        files.deep_view() == files_of(paths.deep_view(), contents.deep_view()),
{
    let mut files: Vec<IndexedFile> = Vec::new();
    let mut i: usize = 0;
    while i < paths.len()
        invariant
            i <= paths@.len(),
            paths@.len() == contents@.len(),
            files@.len() == i,
            forall|j: int|
                0 <= j < i ==> (#[trigger] files@[j])@ == (IndexedFileView {
                    path: paths@[j]@,
                    content: contents@[j]@,
                }),
        decreases paths@.len() - i,
    {
        files.push(IndexedFile { path: paths[i].clone(), content: contents[i].clone() });
        i += 1;
    }
    assert(files.deep_view() =~= files_of(paths.deep_view(), contents.deep_view()));
    files
}

/// The content records that a list of files becomes under an owner.
pub open spec fn records_of(files: Seq<IndexedFileView>, owner_id: i64, now: i32) -> Seq<
    ContentView,
> {
    files.map_values(record_under(owner_id, now))
}

/// One indexed file: the owner, the path, the text, and when it was added.
pub struct ContentView {
    pub owner_id: i64,
    pub file_path: Seq<char>,
    pub content: Seq<char>,
    pub created_at: i32,
}

/// A stored source.
pub struct SourceRecordView {
    pub id: i64,
    pub row: SourceRowView,
    pub created_at: i32,
}

/// A stored template of a source.
pub struct SourceTemplateRecordView {
    pub id: i64,
    pub row: SourceTemplateRowView,
    pub created_at: i32,
}

/// Whether stored sources stand newest first.
pub open spec fn newest_sources_first(records: Seq<SourceRecordView>) -> bool {
    forall|i: int, j: int|
        0 <= i < j < records.len() ==> records[i].created_at >= records[j].created_at
}

/// Whether a list holds the rows of the stored sources, newest first.
pub open spec fn lists_sources(list: Seq<SourceRowView>, stored: Seq<SourceRecordView>) -> bool {
    exists|records: Seq<SourceRecordView>|
        {
            &&& #[trigger] records.to_multiset() == stored.to_multiset()
            &&& newest_sources_first(records)
            &&& list == records.map_values(source_row_of())
        }
}

/// A rule that says whether a content matches a search term.
pub type Matcher = spec_fn(Seq<char>, Seq<char>) -> bool;

/// Whether some record of `content` belongs to `owner_id` and matches.
pub open spec fn content_hit(
    content: Seq<ContentView>,
    owner_id: i64,
    term: Seq<char>,
    matcher: Matcher,
) -> bool {
    exists|i: int|
        0 <= i < content.len() && (#[trigger] content[i]).owner_id == owner_id && matcher(
            content[i].content,
            term,
        )
}

/// What a search reports of an installed template.
pub open spec fn template_report() -> spec_fn(TemplateResultView) -> SearchResultView {
    |t: TemplateResultView| t.search_result()
}

/// What a search reports of a template of a source.
pub open spec fn source_template_report() -> spec_fn(SourceTemplateRecordView) -> SearchResultView {
    |st: SourceTemplateRecordView| st.row.search_result(st.id)
}

/// The row of a stored source.
pub open spec fn source_row_of() -> spec_fn(SourceRecordView) -> SourceRowView {
    |s: SourceRecordView| s.row
}

/// The content record that a file becomes under an owner.
pub open spec fn record_under(owner_id: i64, now: i32) -> spec_fn(IndexedFileView) -> ContentView {
    |f: IndexedFileView| f.record(owner_id, now)
}

/// Whether no two items of a list have the same id.
pub open spec fn distinct_by<A>(list: Seq<A>, id_of: spec_fn(A) -> i64) -> bool {
    forall|i: int, j: int|
        0 <= i < j < list.len() ==> id_of(#[trigger] list[i]) != id_of(#[trigger] list[j])
}

/// The id of a stored template.
pub open spec fn template_id() -> spec_fn(TemplateResultView) -> i64 {
    |t: TemplateResultView| t.id
}

/// The id of a stored source.
pub open spec fn source_id() -> spec_fn(SourceRecordView) -> i64 {
    |s: SourceRecordView| s.id
}

/// The id of a stored template of a source.
pub open spec fn source_template_id() -> spec_fn(SourceTemplateRecordView) -> i64 {
    |st: SourceTemplateRecordView| st.id
}

/// The id of the owner that a search reports.
pub open spec fn result_id() -> spec_fn(SearchResultView) -> i64 {
    |r: SearchResultView| r.id
}

/// Taking items out of a list with distinct ids leaves the ids distinct.
pub proof fn lemma_filter_distinct<A>(
    list: Seq<A>,
    id_of: spec_fn(A) -> i64,
    pred: spec_fn(A) -> bool,
)
    requires
        distinct_by(list, id_of),
    ensures
        distinct_by(list.filter(pred), id_of),
    decreases list.len(),
{
    reveal(Seq::filter);
    if list.len() > 0 {
        let rest = list.drop_last();
        assert(distinct_by(rest, id_of)) by {
            assert forall|i: int, j: int| 0 <= i < j < rest.len() implies id_of(
                #[trigger] rest[i],
            ) != id_of(#[trigger] rest[j]) by {
                assert(id_of(list[i]) != id_of(list[j]));
            }
        }
        lemma_filter_distinct(rest, id_of, pred);
        if pred(list.last()) {
            let kept = rest.filter(pred);
            let whole = kept.push(list.last());
            assert forall|i: int, j: int| 0 <= i < j < whole.len() implies id_of(
                #[trigger] whole[i],
            ) != id_of(#[trigger] whole[j]) by {
                if j < kept.len() {
                    assert(id_of(kept[i]) != id_of(kept[j]));
                } else {
                    assert(kept.contains(kept[i]));
                    rest.lemma_filter_contains_rev(pred, kept[i]);
                    let w = choose|w: int| 0 <= w < rest.len() && rest[w] == kept[i];
                    assert(id_of(list[w]) != id_of(list[list.len() - 1]));
                }
            }
        }
    }
}

/// The templates that have another id than the given one.
pub open spec fn other_than(id: i64) -> spec_fn(TemplateResultView) -> bool {
    |t: TemplateResultView| t.id != id
}

/// The change that an update makes to each template: the one with the id
/// gets the new row, the others stay.
pub open spec fn replacing(id: i64, row: TemplateRowView, now: i32) -> spec_fn(
    TemplateResultView,
) -> TemplateResultView {
    |t: TemplateResultView|
        if t.id == id {
            row.updated(t, now)
        } else {
            t
        }
}

/// Everything that a cache store holds, each table in the order in which
/// its rows were added.
pub struct CacheView {
    pub schema: bool,
    pub templates: Seq<TemplateResultView>,
    pub template_content: Seq<ContentView>,
    pub sources: Seq<SourceRecordView>,
    pub source_templates: Seq<SourceTemplateRecordView>,
    pub source_template_content: Seq<ContentView>,
}

/// What the store said when it failed, as text.
pub open spec fn store_error_text(e: StoreError) -> Seq<char> {
    match e {
        StoreError::SchemaMissing => "the tables of the store are missing"@,
        StoreError::NotFound => "no row has this id"@,
        StoreError::Exhausted => "the store has no id left"@,
        StoreError::Backend(said) => said@,
    }
}

impl StoreError {
    /// What the store said when it failed.
    pub fn message(&self) -> (text: String)
        ensures
            text@ == store_error_text(*self),
    {
        match self {
            StoreError::SchemaMissing => "the tables of the store are missing".to_owned(),
            StoreError::NotFound => "no row has this id".to_owned(),
            StoreError::Exhausted => "the store has no id left".to_owned(),
            StoreError::Backend(said) => said.clone(),
        }
    }
}

impl CacheView {
    /// A store without tables.
    pub open spec fn empty() -> CacheView {
        CacheView {
            schema: false,
            templates: Seq::empty(),
            template_content: Seq::empty(),
            sources: Seq::empty(),
            source_templates: Seq::empty(),
            source_template_content: Seq::empty(),
        }
    }

    /// The store with its tables created.
    pub open spec fn with_schema(self) -> CacheView {
        CacheView { schema: true, ..self }
    }

    /// The store with one more template.
    pub open spec fn with_template(self, t: TemplateResultView) -> CacheView {
        CacheView { templates: self.templates.push(t), ..self }
    }

    /// The store without the template that has the id.
    pub open spec fn without_template(self, id: i64) -> CacheView {
        CacheView { templates: self.templates.filter(other_than(id)), ..self }
    }

    /// The store with the row of the template that has the id replaced.
    pub open spec fn with_updated(self, id: i64, row: TemplateRowView, now: i32) -> CacheView {
        CacheView { templates: self.templates.map_values(replacing(id, row, now)), ..self }
    }

    /// The store with more content records of templates.
    pub open spec fn with_template_content(self, records: Seq<ContentView>) -> CacheView {
        CacheView { template_content: self.template_content + records, ..self }
    }

    /// The store with one more source, its templates and their content.
    pub open spec fn with_source(
        self,
        source: SourceRecordView,
        templates: Seq<SourceTemplateRecordView>,
        content: Seq<ContentView>,
    ) -> CacheView {
        CacheView {
            sources: self.sources.push(source),
            source_templates: self.source_templates + templates,
            source_template_content: self.source_template_content + content,
            ..self
        }
    }

    /// Whether every id stands for one row: no two templates, no two
    /// sources and no two templates of sources have the same id.
    pub open spec fn ids_distinct(self) -> bool {
        &&& distinct_by(self.templates, template_id())
        &&& distinct_by(self.sources, source_id())
        &&& distinct_by(self.source_templates, source_template_id())
    }

    /// Whether a template has the id.
    pub open spec fn has_template(self, id: i64) -> bool {
        exists|i: int| 0 <= i < self.templates.len() && (#[trigger] self.templates[i]).id == id
    }

    /// Whether a source has the id.
    pub open spec fn has_source(self, id: i64) -> bool {
        exists|i: int| 0 <= i < self.sources.len() && (#[trigger] self.sources[i]).id == id
    }

    /// Whether a template of a source has the id.
    pub open spec fn has_source_template(self, id: i64) -> bool {
        exists|i: int|
            0 <= i < self.source_templates.len() && (#[trigger] self.source_templates[i]).id == id
    }

    /// Whether a template has the name, lang and repo of `row`.
    pub open spec fn has_identity(self, row: TemplateRowView) -> bool {
        exists|i: int|
            0 <= i < self.templates.len() && (#[trigger] self.templates[i]).same_identity(row)
    }

    /// The templates that have the name, lang and repo of `row`.
    pub open spec fn with_identity(self, row: TemplateRowView) -> Seq<TemplateResultView> {
        self.templates.filter(|t: TemplateResultView| t.same_identity(row))
    }

    /// Whether no two templates share name, lang and repo.
    pub open spec fn identities_unique(self) -> bool {
        forall|i: int, j: int|
            0 <= i < j < self.templates.len() ==> !(#[trigger] self.templates[i]).same_identity(
                (#[trigger] self.templates[j]).row(),
            )
    }

    /// Whether a template has content that matches a term.
    pub open spec fn template_hit(self, term: Seq<char>, matcher: Matcher) -> spec_fn(
        TemplateResultView,
    ) -> bool {
        |t: TemplateResultView| content_hit(self.template_content, t.id, term, matcher)
    }

    /// The templates with content that matches a term, as a search reports
    /// them, in the order of the table.
    pub open spec fn template_hits(self, term: Seq<char>, matcher: Matcher) -> Seq<
        SearchResultView,
    > {
        self.templates.filter(self.template_hit(term, matcher)).map_values(template_report())
    }

    /// Whether the source with the id has the name.
    pub open spec fn source_named(self, id: i64, name: Seq<char>) -> bool {
        exists|i: int|
            0 <= i < self.sources.len() && (#[trigger] self.sources[i]).id == id
                && self.sources[i].row.name == name
    }

    /// Whether a template of a source has content that matches a term and,
    /// where a name is given, belongs to a source of that name.
    pub open spec fn source_hit(
        self,
        source_name: Option<Seq<char>>,
        term: Seq<char>,
        matcher: Matcher,
    ) -> spec_fn(SourceTemplateRecordView) -> bool {
        |st: SourceTemplateRecordView|
            content_hit(self.source_template_content, st.id, term, matcher) && (
            source_name matches Some(name) ==> self.source_named(st.row.source_id, name))
    }

    /// The templates of sources that a search reports, in the order of the
    /// table.
    pub open spec fn source_hits(
        self,
        source_name: Option<Seq<char>>,
        term: Seq<char>,
        matcher: Matcher,
    ) -> Seq<SearchResultView> {
        self.source_templates.filter(self.source_hit(source_name, term, matcher)).map_values(
            source_template_report(),
        )
    }
}

/// What a store holds, and how it matches content against a search term.
pub trait CacheState: Sized {
    /// Everything that the store holds. Of a store that does not say what
    /// it holds, nothing is known.
    open spec fn state(&self) -> CacheView {
        vstd::pervasive::arbitrary()
    }

    /// Whether a content matches a search term. Of a store that does not
    /// say how it matches, nothing is known.
    open spec fn text_matches(content: Seq<char>, term: Seq<char>) -> bool {
        vstd::pervasive::arbitrary()
    }

    /// The list that a search among the installed templates returns for a
    /// trimmed term, in the order in which the store returns it. Of a
    /// store that does not say, no more is known than the search states.
    open spec fn local_answer(&self, term: Seq<char>) -> Seq<SearchResultView> {
        vstd::pervasive::arbitrary()
    }

    /// The list that a search among the templates of sources returns for a
    /// trimmed term, in the order in which the store returns it; of the
    /// sources with the given name only, if one is given.
    open spec fn sources_answer(&self, source_name: Option<Seq<char>>, term: Seq<char>) -> Seq<
        SearchResultView,
    > {
        vstd::pervasive::arbitrary()
    }

    /// Whether the store answers every request that its tables and its
    /// room allow. A store that can fail for reasons of its own, such as a
    /// file that cannot be written or a connection that is lost, is not
    /// dependable, and no store is unless it says so.
    open spec fn dependable(&self) -> bool {
        false
    }

    /// How many more templates, sources and templates of sources the store
    /// is owed to take, of each of them. Content records take no room.
    /// Unless a store says otherwise, none.
    open spec fn room(&self) -> nat {
        0
    }
}

/// The rule by which a store matches content, as a function.
pub open spec fn matcher_of<D: CacheState>() -> Matcher {
    |content: Seq<char>, term: Seq<char>| D::text_matches(content, term)
}

/// A cache store: templates, sources, and the tables that hold them.
pub trait TemplateDb: TemplateMethods + SourceMethods {
    /// Creates the tables. Tables that exist are kept as they are. A
    /// dependable store does not fail to create them.
    fn create_schema(&mut self) -> (done: Result<(), StoreError>)
        ensures
            match done {
                Ok(()) => final(self).state() == old(self).state().with_schema(),
                Err(_) => final(self).state() == old(self).state(),
            },
            old(self).dependable() ==> done is Ok,
            final(self).dependable() == old(self).dependable(),
            final(self).room() >= old(self).room(),
            old(self).state().ids_distinct() ==> final(self).state().ids_distinct(),
    ;
}

/// A template with a new id keeps the ids distinct.
pub proof fn lemma_template_keeps_ids_distinct(state: CacheView, t: TemplateResultView)
    requires
        state.ids_distinct(),
        !state.has_template(t.id),
    ensures
        state.with_template(t).ids_distinct(),
{
    let longer = state.templates.push(t);
    assert forall|i: int, j: int| 0 <= i < j < longer.len() implies template_id()(
        #[trigger] longer[i],
    ) != template_id()(#[trigger] longer[j]) by {
        if j < state.templates.len() {
            assert(template_id()(state.templates[i]) != template_id()(state.templates[j]));
        } else {
            assert(state.templates[i].id != t.id);
        }
    }
}

/// Without a template, the ids stay distinct.
pub proof fn lemma_removal_keeps_ids_distinct(state: CacheView, id: i64)
    requires
        state.ids_distinct(),
    ensures
        state.without_template(id).ids_distinct(),
{
    lemma_filter_distinct(state.templates, template_id(), other_than(id));
}

/// An update keeps the ids as they are, and so distinct.
pub proof fn lemma_update_keeps_ids_distinct(
    state: CacheView,
    id: i64,
    row: TemplateRowView,
    now: i32,
)
    requires
        state.ids_distinct(),
    ensures
        state.with_updated(id, row, now).ids_distinct(),
{
    let changed = state.templates.map_values(replacing(id, row, now));
    assert forall|i: int, j: int| 0 <= i < j < changed.len() implies template_id()(
        #[trigger] changed[i],
    ) != template_id()(#[trigger] changed[j]) by {
        assert(template_id()(state.templates[i]) != template_id()(state.templates[j]));
    }
}

/// A source with a new id, with templates that have new and distinct ids,
/// keeps the ids distinct.
pub proof fn lemma_source_keeps_ids_distinct(
    state: CacheView,
    source: SourceRecordView,
    templates: Seq<SourceTemplateRecordView>,
    content: Seq<ContentView>,
)
    requires
        state.ids_distinct(),
        !state.has_source(source.id),
        distinct_by(templates, source_template_id()),
        forall|i: int|
            0 <= i < templates.len() ==> !state.has_source_template((#[trigger] templates[i]).id),
    ensures
        state.with_source(source, templates, content).ids_distinct(),
{
    let sources = state.sources.push(source);
    assert forall|i: int, j: int| 0 <= i < j < sources.len() implies source_id()(
        #[trigger] sources[i],
    ) != source_id()(#[trigger] sources[j]) by {
        if j < state.sources.len() {
            assert(source_id()(state.sources[i]) != source_id()(state.sources[j]));
        } else {
            assert(state.sources[i].id != source.id);
        }
    }
    let before = state.source_templates;
    let all = before + templates;
    assert forall|i: int, j: int| 0 <= i < j < all.len() implies source_template_id()(
        #[trigger] all[i],
    ) != source_template_id()(#[trigger] all[j]) by {
        if j < before.len() {
            assert(source_template_id()(before[i]) != source_template_id()(before[j]));
        } else if i < before.len() {
            assert(!state.has_source_template(templates[j - before.len()].id));
            assert(before[i].id != templates[j - before.len()].id);
        } else {
            assert(source_template_id()(templates[i - before.len()]) != source_template_id()(
                templates[j - before.len()],
            ));
        }
    }
}

/// Where the ids are distinct, a search among the installed templates
/// reports each id once.
pub proof fn lemma_template_hits_once(state: CacheView, term: Seq<char>, matcher: Matcher)
    requires
        state.ids_distinct(),
    ensures
        distinct_by(state.template_hits(term, matcher), result_id()),
{
    let kept = state.templates.filter(state.template_hit(term, matcher));
    lemma_filter_distinct(state.templates, template_id(), state.template_hit(term, matcher));
    let hits = state.template_hits(term, matcher);
    assert forall|i: int, j: int| 0 <= i < j < hits.len() implies result_id()(#[trigger] hits[i])
        != result_id()(#[trigger] hits[j]) by {
        assert(template_id()(kept[i]) != template_id()(kept[j]));
    }
}

/// Where the ids are distinct, a search among the templates of sources
/// reports each id once.
pub proof fn lemma_source_hits_once(
    state: CacheView,
    source_name: Option<Seq<char>>,
    term: Seq<char>,
    matcher: Matcher,
)
    requires
        state.ids_distinct(),
    ensures
        distinct_by(state.source_hits(source_name, term, matcher), result_id()),
{
    let pred = state.source_hit(source_name, term, matcher);
    let kept = state.source_templates.filter(pred);
    lemma_filter_distinct(state.source_templates, source_template_id(), pred);
    let hits = state.source_hits(source_name, term, matcher);
    assert forall|i: int, j: int| 0 <= i < j < hits.len() implies result_id()(#[trigger] hits[i])
        != result_id()(#[trigger] hits[j]) by {
        assert(source_template_id()(kept[i]) != source_template_id()(kept[j]));
    }
}

} // verus!
