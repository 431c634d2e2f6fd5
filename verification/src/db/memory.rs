//! A cache store that keeps its tables in memory.

use crate::db::local_db::{
    content_hit, distinct_by, lemma_removal_keeps_ids_distinct, lemma_source_hits_once,
    lemma_source_keeps_ids_distinct, lemma_template_hits_once, lemma_template_keeps_ids_distinct,
    lemma_update_keeps_ids_distinct, matcher_of, newest_sources_first, Matcher, other_than, records_of,
    replacing, source_row_of, source_template_id, source_template_report, template_report,
    CacheState, CacheView, ContentView, IndexedFile, SourceRecordView, SourceTemplateRecordView,
    StoreError, TemplateDb,
};
use crate::db::ordering::insert_in_order;
use crate::db::source::{
    fresh_ids, staged_content, staged_records, AddSourceResult, SourceMethods, SourceRow,
    SourceTemplateRow, StagedTemplate,
};
use crate::db::template::{
    ordered, ListTemplateOptions, SearchResult, SearchResultKind, SearchResultView,
    TemplateFindParams, TemplateMethods, TemplateOrder, TemplateResult, TemplateRow,
};
use crate::util::string::{chars_contain, chars_of, clone_opt_string, text_contains, trim, trimmed};
use vstd::prelude::*;
use vstd::seq_lib::to_multiset_build;

verus! {

/// One indexed file of a template.
#[derive(Debug)]
pub struct ContentRecord {
    pub owner_id: i64,
    pub file_path: String,
    pub content: String,
    pub created_at: i32,
}

impl View for ContentRecord {
    type V = ContentView;

    open spec fn view(&self) -> ContentView {
        ContentView {
            owner_id: self.owner_id,
            file_path: self.file_path@,
            content: self.content@,
            created_at: self.created_at,
        }
    }
}

impl DeepView for ContentRecord {
    type V = ContentView;

    open spec fn deep_view(&self) -> ContentView {
        self@
    }
}

/// A stored source.
#[derive(Debug)]
pub struct SourceRecord {
    pub id: i64,
    pub row: SourceRow,
    pub created_at: i32,
}

impl View for SourceRecord {
    type V = SourceRecordView;

    open spec fn view(&self) -> SourceRecordView {
        SourceRecordView { id: self.id, row: self.row@, created_at: self.created_at }
    }
}

impl DeepView for SourceRecord {
    type V = SourceRecordView;

    open spec fn deep_view(&self) -> SourceRecordView {
        self@
    }
}

/// A stored template of a source.
#[derive(Debug)]
pub struct SourceTemplateRecord {
    pub id: i64,
    pub row: SourceTemplateRow,
    pub created_at: i32,
}

impl View for SourceTemplateRecord {
    type V = SourceTemplateRecordView;

    open spec fn view(&self) -> SourceTemplateRecordView {
        SourceTemplateRecordView { id: self.id, row: self.row@, created_at: self.created_at }
    }
}

impl DeepView for SourceTemplateRecord {
    type V = SourceTemplateRecordView;

    open spec fn deep_view(&self) -> SourceTemplateRecordView {
        self@
    }
}

/// A cache store in memory. Ids are given out in rising order, from 1, and
/// never twice; content matches a term that stands somewhere in it.
#[derive(Debug)]
pub struct MemoryCache {
    schema: bool,
    templates: Vec<TemplateResult>,
    template_content: Vec<ContentRecord>,
    sources: Vec<SourceRecord>,
    source_templates: Vec<SourceTemplateRecord>,
    source_template_content: Vec<ContentRecord>,
    template_ids: i64,
    source_ids: i64,
    source_template_ids: i64,
}

impl CacheState for MemoryCache {
    closed spec fn state(&self) -> CacheView {
        CacheView {
            schema: self.schema,
            templates: self.templates.deep_view(),
            template_content: self.template_content.deep_view(),
            sources: self.sources.deep_view(),
            source_templates: self.source_templates.deep_view(),
            source_template_content: self.source_template_content.deep_view(),
        }
    }

    /// The store in memory matches a content where the term stands
    /// somewhere in it.
    open spec fn text_matches(content: Seq<char>, term: Seq<char>) -> bool {
        text_contains(content, term)
    }

    /// The store in memory returns the installed templates with matching
    /// content in the order of its table.
    open spec fn local_answer(&self, term: Seq<char>) -> Seq<SearchResultView> {
        self.state().template_hits(term, substring_matcher())
    }

    /// The store in memory returns the templates of sources with matching
    /// content in the order of its table.
    open spec fn sources_answer(&self, source_name: Option<Seq<char>>, term: Seq<char>) -> Seq<
        SearchResultView,
    > {
        self.state().source_hits(source_name, term, substring_matcher())
    }

    /// The store in memory answers every request that its tables and its
    /// room allow.
    open spec fn dependable(&self) -> bool {
        true
    }

    /// The store in memory has room in a table as long as it has ids left
    /// to give there.
    open spec fn room(&self) -> nat {
        least_of(
            ids_left(self.template_ids_given()),
            ids_left(self.source_ids_given()),
            ids_left(self.source_template_ids_given()),
        )
    }
}

/// The rule that a content matches a term that stands somewhere in it.
pub open spec fn substring_matcher() -> Matcher {
    |content: Seq<char>, term: Seq<char>| text_contains(content, term)
}

/// The rule of the store in memory is that of the substring.
pub proof fn lemma_memory_matcher()
    ensures
        matcher_of::<MemoryCache>() == substring_matcher(),
{
    assert(matcher_of::<MemoryCache>() =~= substring_matcher());
}

/// How many ids are left to give when so many have been given.
pub open spec fn ids_left(given: int) -> nat {
    if 0 <= given <= i64::MAX {
        (i64::MAX - given) as nat
    } else {
        0
    }
}

/// The least of three numbers.
pub open spec fn least_of(a: nat, b: nat, c: nat) -> nat {
    if a <= b && a <= c {
        a
    } else if b <= c {
        b
    } else {
        c
    }
}

/// Filtering an empty list leaves it empty.
proof fn lemma_filter_nothing<A>(list: Seq<A>, pred: spec_fn(A) -> bool)
    requires
        list.len() == 0,
    ensures
        list.filter(pred) == Seq::<A>::empty(),
{
    reveal(Seq::filter);
    assert(list =~= Seq::<A>::empty());
}

/// Whether some record of `content` belongs to the owner and holds the term.
fn has_hit(content: &Vec<ContentRecord>, owner_id: i64, term: &Vec<char>) -> (hit: bool)
    ensures
        hit == content_hit(content.deep_view(), owner_id, term@, matcher_of::<MemoryCache>()),
{
    let mut i: usize = 0;
    while i < content.len()
        invariant
            i <= content@.len(),
            forall|j: int|
                0 <= j < i ==> !((#[trigger] content.deep_view()[j]).owner_id == owner_id
                    && text_contains(content.deep_view()[j].content, term@)),
        decreases content@.len() - i,
    {
        if content[i].owner_id == owner_id {
            let text = chars_of(content[i].content.as_str());
            if chars_contain(&text, term) {
                assert(content.deep_view()[i as int].owner_id == owner_id);
                return true;
            }
        }
        i += 1;
    }
    false
}

/// Puts a stored source into a list that stands newest first, behind the
/// sources that are as new or newer.
fn insert_source(list: &mut Vec<SourceRecord>, record: SourceRecord)
    requires
        newest_sources_first(old(list).deep_view()),
    ensures
        newest_sources_first(final(list).deep_view()),
        final(list).deep_view().to_multiset() == old(list).deep_view().to_multiset().insert(
            record@,
        ),
{
    let ghost before = list.deep_view();
    let mut at: usize = 0;
    while at < list.len() && list[at].created_at >= record.created_at
        invariant
            at <= list@.len(),
            list.deep_view() == before,
            forall|j: int| 0 <= j < at ==> (#[trigger] before[j]).created_at >= record.created_at,
        decreases list@.len() - at,
    {
        at += 1;
    }
    list.insert(at, record);
    proof {
        let after = list.deep_view();
        assert(after =~= before.insert(at as int, record@));
        vstd::seq_lib::to_multiset_insert(before, at as int, record@);
        assert forall|i: int, j: int| 0 <= i < j < after.len() implies after[i].created_at
            >= after[j].created_at by {
            if j < at {
                assert(before[i].created_at >= before[j].created_at);
            } else if j == at {
                assert(before[i].created_at >= record.created_at);
            } else if i == at {
                assert(before[at as int].created_at < record.created_at);
                if j - 1 > at {
                    assert(before[at as int].created_at >= before[j - 1].created_at);
                }
            } else if i < at {
                assert(before[i].created_at >= before[j - 1].created_at);
            } else {
                assert(before[i - 1].created_at >= before[j - 1].created_at);
            }
        }
    }
}

/// Whether a list of ids holds an id.
fn holds_id(ids: &Vec<i64>, id: i64) -> (found: bool)
    ensures
        found == ids@.contains(id),
{
    let mut i: usize = 0;
    while i < ids.len()
        invariant
            i <= ids@.len(),
            forall|j: int| 0 <= j < i ==> ids@[j] != id,
        decreases ids@.len() - i,
    {
        if ids[i] == id {
            return true;
        }
        i += 1;
    }
    false
}

/// Whether a text filter admits a field.
fn text_admitted(filter: &Option<String>, field: &String) -> (ok: bool)
    ensures
        ok == crate::db::template::text_filter_admits(filter.deep_view(), field@),
{
    match filter {
        Some(wanted) => *wanted == *field,
        None => true,
    }
}

/// Whether a text filter admits an optional field.
fn optional_admitted(filter: &Option<String>, field: &Option<String>) -> (ok: bool)
    ensures
        ok == crate::db::template::optional_filter_admits(filter.deep_view(), field.deep_view()),
{
    match filter {
        Some(wanted) => match field {
            Some(held) => *wanted == *held,
            None => false,
        },
        None => true,
    }
}

/// Whether the filters admit a template.
fn admitted(query: &TemplateFindParams, t: &TemplateResult) -> (ok: bool)
    ensures
        ok == query@.admits(t@),
{
    let by_id = match &query.ids {
        Some(ids) => ids.len() == 0 || holds_id(ids, t.id),
        None => true,
    };
    by_id && text_admitted(&query.name, &t.name) && text_admitted(&query.lang, &t.lang)
        && text_admitted(&query.repo, &t.repo) && optional_admitted(&query.branch, &t.branch)
        && optional_admitted(&query.subdir, &t.subdir)
}

impl MemoryCache {
    #[verifier::type_invariant]
    spec fn ids_are_given(self) -> bool {
        &&& 0 <= self.template_ids
        &&& 0 <= self.source_ids
        &&& 0 <= self.source_template_ids
        &&& forall|i: int|
            0 <= i < self.templates@.len() ==> 1 <= (#[trigger] self.templates@[i]).id
                <= self.template_ids
        &&& forall|i: int|
            0 <= i < self.sources@.len() ==> 1 <= (#[trigger] self.sources@[i]).id
                <= self.source_ids
        &&& forall|i: int|
            0 <= i < self.source_templates@.len() ==> 1 <= (#[trigger] self.source_templates@[i]).id
                <= self.source_template_ids
    }

    /// How many ids of templates the store has given out.
    pub closed spec fn template_ids_given(&self) -> int {
        self.template_ids as int
    }

    /// How many ids of sources the store has given out.
    pub closed spec fn source_ids_given(&self) -> int {
        self.source_ids as int
    }

    /// How many ids of templates of sources the store has given out.
    pub closed spec fn source_template_ids_given(&self) -> int {
        self.source_template_ids as int
    }

    /// A store without tables and without rows.
    pub fn new() -> (cache: Self)
        ensures
            cache.state() == CacheView::empty(),
            cache.template_ids_given() == 0,
            cache.source_ids_given() == 0,
            cache.source_template_ids_given() == 0,
    {
        let cache = MemoryCache {
            schema: false,
            templates: Vec::new(),
            template_content: Vec::new(),
            sources: Vec::new(),
            source_templates: Vec::new(),
            source_template_content: Vec::new(),
            template_ids: 0,
            source_ids: 0,
            source_template_ids: 0,
        };
        assert(cache.templates.deep_view() =~= Seq::empty());
        assert(cache.template_content.deep_view() =~= Seq::empty());
        assert(cache.sources.deep_view() =~= Seq::empty());
        assert(cache.source_templates.deep_view() =~= Seq::empty());
        assert(cache.source_template_content.deep_view() =~= Seq::empty());
        cache
    }

    /// The place of the template with the id.
    fn template_at(&self, id: i64) -> (at: Option<usize>)
        ensures
            match at {
                Some(i) => i < self.templates@.len() && self.templates@[i as int].id == id,
                None => !self.state().has_template(id),
            },
    {
        let mut i: usize = 0;
        while i < self.templates.len()
            invariant
                i <= self.templates@.len(),
                forall|j: int| 0 <= j < i ==> (#[trigger] self.templates.deep_view()[j]).id != id,
            decreases self.templates@.len() - i,
        {
            if self.templates[i].id == id {
                return Some(i);
            }
            i += 1;
        }
        None
    }

    /// Whether a source with the id has the name.
    fn source_is_named(&self, id: i64, name: &String) -> (named: bool)
        ensures
            named == self.state().source_named(id, name@),
    {
        let mut i: usize = 0;
        while i < self.sources.len()
            invariant
                i <= self.sources@.len(),
                forall|j: int|
                    0 <= j < i ==> !((#[trigger] self.sources.deep_view()[j]).id == id
                        && self.sources.deep_view()[j].row.name == name@),
            decreases self.sources@.len() - i,
        {
            if self.sources[i].id == id && self.sources[i].row.name == *name {
                assert(self.sources.deep_view()[i as int].id == id);
                return true;
            }
            i += 1;
        }
        false
    }

    /// The templates that a predicate admits, in the given order. The
    /// predicate is given by the list of those that it admits.
    fn listed(&self, query: Option<&TemplateFindParams>, order: TemplateOrder) -> (list: Vec<
        TemplateResult,
    >)
        ensures
            ordered(order, list.deep_view()),
            match query {
                Some(q) => list.deep_view().to_multiset() == self.state().templates.filter(
                    q@.admitted(),
                ).to_multiset(),
                None => list.deep_view().to_multiset() == self.state().templates.to_multiset(),
            },
    {
        let mut list: Vec<TemplateResult> = Vec::new();
        let ghost all = self.templates.deep_view();
        let mut i: usize = 0;
        assert(all.take(0) =~= Seq::empty());
        assert(list.deep_view() =~= Seq::empty());
        proof {
            if let Some(q) = query {
                lemma_filter_nothing(all.take(0), q@.admitted());
                assert(all.take(0).filter(q@.admitted()) =~= Seq::empty());
            }
        }
        while i < self.templates.len()
            invariant
                i <= self.templates@.len(),
                all == self.templates.deep_view(),
                ordered(order, list.deep_view()),
                match query {
                    Some(q) => list.deep_view().to_multiset() == all.take(i as int).filter(
                        q@.admitted(),
                    ).to_multiset(),
                    None => list.deep_view().to_multiset() == all.take(i as int).to_multiset(),
                },
            decreases self.templates@.len() - i,
        {
            let t = &self.templates[i];
            let take = match query {
                Some(q) => admitted(q, t),
                None => true,
            };
            proof {
                assert(all.take(i as int + 1) =~= all.take(i as int).push(t@));
                to_multiset_build(all.take(i as int), t@);
                if let Some(q) = query {
                    all.take(i as int).lemma_filter_push(t@, q@.admitted());
                    to_multiset_build(all.take(i as int).filter(q@.admitted()), t@);
                }
            }
            if take {
                insert_in_order(&mut list, t.clone(), order);
            }
            i += 1;
        }
        assert(all.take(i as int) =~= all);
        list
    }
}

impl TemplateMethods for MemoryCache {
    #[verifier::loop_isolation(false)]
    fn check_unique(&self, row: &TemplateRow) -> (found: Result<Option<TemplateResult>, StoreError>)
        ensures
            self.state().schema ==> found is Ok,
            !self.state().schema ==> found matches Err(StoreError::SchemaMissing),
    {
        if !self.schema {
            return Err(StoreError::SchemaMissing);
        }
        let mut i: usize = 0;
        while i < self.templates.len()
            invariant
                i <= self.templates@.len(),
                forall|j: int|
                    0 <= j < i ==> !(#[trigger] self.templates.deep_view()[j]).same_identity(row@),
            decreases self.templates@.len() - i,
        {
            let t = &self.templates[i];
            if t.name == row.name && t.lang == row.lang && t.repo == row.repo {
                let found = t.clone();
                assert(self.state().templates[i as int] == found@);
                return Ok(Some(found));
            }
            i += 1;
        }
        Ok(None)
    }

    fn create_template(&mut self, row: TemplateRow, now: i32) -> (made: Result<i64, StoreError>)
        ensures
            old(self).state().schema && old(self).template_ids_given() < i64::MAX ==> made is Ok,
            !old(self).state().schema ==> made matches Err(StoreError::SchemaMissing),
            made matches Ok(id) ==> id == old(self).template_ids_given() + 1
                && final(self).template_ids_given() == id,
            made is Err ==> final(self).template_ids_given() == old(self).template_ids_given(),
            final(self).source_ids_given() == old(self).source_ids_given(),
            final(self).source_template_ids_given() == old(self).source_template_ids_given(),
    {
        proof {
            use_type_invariant(&*self);
        }
        if !self.schema {
            return Err(StoreError::SchemaMissing);
        }
        if self.template_ids == i64::MAX {
            return Err(StoreError::Exhausted);
        }
        let id = self.template_ids + 1;
        let ghost before = self.templates.deep_view();
        let stored = TemplateResult {
            id,
            name: row.name,
            lang: row.lang,
            template_dir: row.template_dir,
            repo: row.repo,
            branch: row.branch,
            subdir: row.subdir,
            sha256_hash: row.sha256_hash,
            created_at: Some(now),
            updated_at: None,
        };
        let mut templates: Vec<TemplateResult> = Vec::new();
        std::mem::swap(&mut templates, &mut self.templates);
        templates.push(stored);
        self.template_ids = id;
        self.templates = templates;
        assert(self.templates.deep_view() =~= before.push(row@.stored(id, now)));
        assert(!old(self).state().has_template(id));
        proof {
            if old(self).state().ids_distinct() {
                lemma_template_keeps_ids_distinct(old(self).state(), row@.stored(id, now));
            }
        }
        Ok(id)
    }

    #[verifier::loop_isolation(false)]
    fn delete_template(&mut self, id: i64) -> (gone: Result<i64, StoreError>)
        ensures
            old(self).state().schema ==> gone is Ok,
            !old(self).state().schema ==> gone matches Err(StoreError::SchemaMissing),
            final(self).template_ids_given() == old(self).template_ids_given(),
            final(self).source_ids_given() == old(self).source_ids_given(),
            final(self).source_template_ids_given() == old(self).source_template_ids_given(),
    {
        proof {
            use_type_invariant(&*self);
        }
        if !self.schema {
            return Err(StoreError::SchemaMissing);
        }
        let ghost all = self.templates.deep_view();
        let mut kept: Vec<TemplateResult> = Vec::new();
        let mut i: usize = 0;
        proof {
            assert(all.take(0) =~= Seq::empty());
            lemma_filter_nothing(all.take(0), other_than(id));
            assert(kept.deep_view() =~= all.take(0).filter(other_than(id)));
        }
        while i < self.templates.len()
            invariant
                i <= self.templates@.len(),
                all == self.templates.deep_view(),
                kept.deep_view() == all.take(i as int).filter(other_than(id)),
                forall|j: int|
                    0 <= j < self.templates@.len() ==> 1 <= (#[trigger] self.templates@[j]).id
                        <= self.template_ids,
                forall|j: int|
                    0 <= j < kept@.len() ==> 1 <= (#[trigger] kept@[j]).id <= self.template_ids,
            decreases self.templates@.len() - i,
        {
            let t = &self.templates[i];
            proof {
                assert(all.take(i as int + 1) =~= all.take(i as int).push(t@));
                all.take(i as int).lemma_filter_push(t@, other_than(id));
            }
            if t.id != id {
                let ghost prior = kept.deep_view();
                kept.push(t.clone());
                assert(kept.deep_view() =~= prior.push(t@));
            }
            i += 1;
        }
        assert(all.take(i as int) =~= all);
        self.templates = kept;
        proof {
            if old(self).state().ids_distinct() {
                lemma_removal_keeps_ids_distinct(old(self).state(), id);
            }
        }
        Ok(id)
    }

    fn find_templates(&self, query: TemplateFindParams) -> (found: Result<
        Vec<TemplateResult>,
        StoreError,
    >)
        ensures
            self.state().schema ==> found is Ok,
            !self.state().schema ==> found matches Err(StoreError::SchemaMissing),
    {
        if !self.schema {
            return Err(StoreError::SchemaMissing);
        }
        Ok(self.listed(Some(&query), TemplateOrder::NameAscending))
    }

    fn get_template(&self, id: i64) -> (found: Result<Option<TemplateResult>, StoreError>)
        ensures
            self.state().schema ==> found is Ok,
            !self.state().schema ==> found matches Err(StoreError::SchemaMissing),
    {
        if !self.schema {
            return Err(StoreError::SchemaMissing);
        }
        match self.template_at(id) {
            Some(i) => {
                let found = self.templates[i].clone();
                assert(self.state().templates[i as int] == found@);
                Ok(Some(found))
            },
            None => Ok(None),
        }
    }

    #[verifier::loop_isolation(false)]
    fn index_template(&mut self, id: i64, files: &Vec<IndexedFile>, now: i32) -> (done: Result<
        (),
        StoreError,
    >)
        ensures
            old(self).state().schema && old(self).state().has_template(id) ==> done is Ok,
            !old(self).state().schema ==> done matches Err(StoreError::SchemaMissing),
            old(self).state().schema && !old(self).state().has_template(id) ==> done matches Err(
                StoreError::NotFound,
            ),
            done is Err ==> final(self).state() == old(self).state(),
            final(self).template_ids_given() == old(self).template_ids_given(),
            final(self).source_ids_given() == old(self).source_ids_given(),
            final(self).source_template_ids_given() == old(self).source_template_ids_given(),
    {
        proof {
            use_type_invariant(&*self);
            assert(files.deep_view().take(0) =~= Seq::empty());
            assert(old(self).state().template_content + records_of(
                files.deep_view().take(0),
                id,
                now,
            ) =~= old(self).state().template_content);
        }
        if !self.schema {
            return Err(StoreError::SchemaMissing);
        }
        match self.template_at(id) {
            Some(at) => {
                assert(self.state().templates[at as int].id == id);
            },
            None => {
                return Err(StoreError::NotFound);
            },
        }
        let ghost before = self.template_content.deep_view();
        let ghost all = files.deep_view();
        let mut content: Vec<ContentRecord> = Vec::new();
        std::mem::swap(&mut content, &mut self.template_content);
        let mut i: usize = 0;
        assert(content.deep_view() =~= before + records_of(all.take(0), id, now));
        while i < files.len()
            invariant
                i <= files@.len(),
                all == files.deep_view(),
                content.deep_view() == before + records_of(all.take(i as int), id, now),
            decreases files@.len() - i,
        {
            let ghost prior = content.deep_view();
            content.push(
                ContentRecord {
                    owner_id: id,
                    file_path: files[i].path.clone(),
                    content: files[i].content.clone(),
                    created_at: now,
                },
            );
            proof {
                assert(all.take(i as int + 1) =~= all.take(i as int).push(all[i as int]));
                assert(content.deep_view() =~= prior.push(all[i as int].record(id, now)));
                assert(content.deep_view() =~= before + records_of(
                    all.take(i as int + 1),
                    id,
                    now,
                ));
            }
            i += 1;
        }
        assert(all.take(i as int) =~= all);
        self.template_content = content;
        Ok(())
    }

    fn list_templates(&self, opts: Option<ListTemplateOptions>) -> (found: Result<
        Vec<TemplateResult>,
        StoreError,
    >)
        ensures
            self.state().schema ==> found is Ok,
            !self.state().schema ==> found matches Err(StoreError::SchemaMissing),
    {
        if !self.schema {
            return Err(StoreError::SchemaMissing);
        }
        Ok(self.listed(None, TemplateOrder::NewestFirst))
    }

    fn template_table_exists(&self) -> (found: Result<bool, StoreError>)
        ensures
            found is Ok,
    {
        Ok(self.schema)
    }

    #[verifier::loop_isolation(false)]
    fn update_template(&mut self, id: i64, row: TemplateRow, now: i32) -> (done: Result<
        i64,
        StoreError,
    >)
        ensures
            old(self).state().schema ==> done is Ok,
            !old(self).state().schema ==> done matches Err(StoreError::SchemaMissing),
            final(self).template_ids_given() == old(self).template_ids_given(),
            final(self).source_ids_given() == old(self).source_ids_given(),
            final(self).source_template_ids_given() == old(self).source_template_ids_given(),
    {
        proof {
            use_type_invariant(&*self);
        }
        if !self.schema {
            return Err(StoreError::SchemaMissing);
        }
        let ghost all = self.templates.deep_view();
        let ghost change = replacing(id, row@, now);
        let mut fresh: Vec<TemplateResult> = Vec::new();
        let mut i: usize = 0;
        assert(fresh.deep_view() =~= all.take(0).map_values(change));
        while i < self.templates.len()
            invariant
                i <= self.templates@.len(),
                all == self.templates.deep_view(),
                change == replacing(id, row@, now),
                fresh.deep_view() == all.take(i as int).map_values(change),
                forall|j: int|
                    0 <= j < self.templates@.len() ==> 1 <= (#[trigger] self.templates@[j]).id
                        <= self.template_ids,
                forall|j: int|
                    0 <= j < fresh@.len() ==> 1 <= (#[trigger] fresh@[j]).id <= self.template_ids,
            decreases self.templates@.len() - i,
        {
            let t = &self.templates[i];
            let ghost prior = fresh.deep_view();
            let next = if t.id == id {
                TemplateResult {
                    id: t.id,
                    name: row.name.clone(),
                    lang: row.lang.clone(),
                    template_dir: row.template_dir.clone(),
                    repo: row.repo.clone(),
                    branch: clone_opt_string(&row.branch),
                    subdir: clone_opt_string(&row.subdir),
                    sha256_hash: clone_opt_string(&row.sha256_hash),
                    created_at: t.created_at,
                    updated_at: Some(now),
                }
            } else {
                t.clone()
            };
            assert(next@ == change(t@));
            fresh.push(next);
            proof {
                assert(all.take(i as int + 1) =~= all.take(i as int).push(t@));
                assert(fresh.deep_view() =~= prior.push(change(t@)));
                assert(fresh.deep_view() =~= all.take(i as int + 1).map_values(change));
            }
            i += 1;
        }
        assert(all.take(i as int) =~= all);
        self.templates = fresh;
        proof {
            if old(self).state().ids_distinct() {
                lemma_update_keeps_ids_distinct(old(self).state(), id, row@, now);
            }
        }
        Ok(id)
    }

    #[verifier::loop_isolation(false)]
    fn search_templates(&self, term: &str) -> (found: Result<Vec<SearchResult>, StoreError>)
        ensures
            self.state().schema ==> found is Ok,
            !self.state().schema ==> found matches Err(StoreError::SchemaMissing),
            found matches Ok(list) ==> list.deep_view() == self.state().template_hits(
                trimmed(term@),
                matcher_of::<MemoryCache>(),
            ),
    {
        if !self.schema {
            return Err(StoreError::SchemaMissing);
        }
        let wanted = chars_of(trim(term));
        let ghost all = self.templates.deep_view();
        let ghost hit = self.state().template_hit(wanted@, matcher_of::<MemoryCache>());
        let mut list: Vec<SearchResult> = Vec::new();
        let mut i: usize = 0;
        proof {
            assert(all.take(0) =~= Seq::empty());
            lemma_filter_nothing(all.take(0), hit);
            assert(list.deep_view() =~= all.take(0).filter(hit).map_values(template_report()));
        }
        while i < self.templates.len()
            invariant
                i <= self.templates@.len(),
                all == self.templates.deep_view(),
                hit == self.state().template_hit(wanted@, matcher_of::<MemoryCache>()),
                list.deep_view() == all.take(i as int).filter(hit).map_values(template_report()),
            decreases self.templates@.len() - i,
        {
            let t = &self.templates[i];
            proof {
                assert(all.take(i as int + 1) =~= all.take(i as int).push(t@));
                all.take(i as int).lemma_filter_push(t@, hit);
            }
            if has_hit(&self.template_content, t.id, &wanted) {
                let ghost prior = list.deep_view();
                list.push(
                    SearchResult {
                        kind: SearchResultKind::Template,
                        id: t.id,
                        name: t.name.clone(),
                        lang: t.lang.clone(),
                        repo: t.repo.clone(),
                        branch: clone_opt_string(&t.branch),
                        subdir: clone_opt_string(&t.subdir),
                    },
                );
                assert(list.deep_view() =~= prior.push(t@.search_result()));
                assert(list.deep_view() =~= all.take(i as int + 1).filter(hit).map_values(
                    template_report(),
                ));
            }
            i += 1;
        }
        assert(all.take(i as int) =~= all);
        proof {
            lemma_memory_matcher();
            if self.state().ids_distinct() {
                lemma_template_hits_once(self.state(), wanted@, matcher_of::<MemoryCache>());
            }
        }
        Ok(list)
    }

    #[verifier::loop_isolation(false)]
    fn search_sources(&self, source_name: Option<String>, term: &str) -> (found: Result<
        Vec<SearchResult>,
        StoreError,
    >)
        ensures
            self.state().schema ==> found is Ok,
            !self.state().schema ==> found matches Err(StoreError::SchemaMissing),
            found matches Ok(list) ==> list.deep_view() == self.state().source_hits(
                source_name.deep_view(),
                trimmed(term@),
                matcher_of::<MemoryCache>(),
            ),
    {
        if !self.schema {
            return Err(StoreError::SchemaMissing);
        }
        let wanted = chars_of(trim(term));
        let ghost all = self.source_templates.deep_view();
        let ghost hit = self.state().source_hit(
            source_name.deep_view(),
            wanted@,
            matcher_of::<MemoryCache>(),
        );
        let mut list: Vec<SearchResult> = Vec::new();
        let mut i: usize = 0;
        proof {
            assert(all.take(0) =~= Seq::empty());
            lemma_filter_nothing(all.take(0), hit);
            assert(list.deep_view() =~= all.take(0).filter(hit).map_values(
                source_template_report(),
            ));
        }
        while i < self.source_templates.len()
            invariant
                i <= self.source_templates@.len(),
                all == self.source_templates.deep_view(),
                hit == self.state().source_hit(
                    source_name.deep_view(),
                    wanted@,
                    matcher_of::<MemoryCache>(),
                ),
                list.deep_view() == all.take(i as int).filter(hit).map_values(
                    source_template_report(),
                ),
            decreases self.source_templates@.len() - i,
        {
            let st = &self.source_templates[i];
            proof {
                assert(all.take(i as int + 1) =~= all.take(i as int).push(st@));
                all.take(i as int).lemma_filter_push(st@, hit);
            }
            let in_scope = match &source_name {
                Some(name) => self.source_is_named(st.row.source_id, name),
                None => true,
            };
            if in_scope && has_hit(&self.source_template_content, st.id, &wanted) {
                let ghost prior = list.deep_view();
                list.push(
                    SearchResult {
                        kind: SearchResultKind::Source,
                        id: st.id,
                        name: st.row.name.clone(),
                        lang: st.row.lang.clone(),
                        repo: st.row.repo.clone(),
                        branch: clone_opt_string(&st.row.branch),
                        subdir: clone_opt_string(&st.row.subdir),
                    },
                );
                assert(list.deep_view() =~= prior.push(st@.row.search_result(st@.id)));
                assert(list.deep_view() =~= all.take(i as int + 1).filter(hit).map_values(
                    source_template_report(),
                ));
            }
            i += 1;
        }
        assert(all.take(i as int) =~= all);
        proof {
            lemma_memory_matcher();
            if self.state().ids_distinct() {
                lemma_source_hits_once(
                    self.state(),
                    source_name.deep_view(),
                    wanted@,
                    matcher_of::<MemoryCache>(),
                );
            }
        }
        Ok(list)
    }
}

impl SourceMethods for MemoryCache {
    #[verifier::loop_isolation(false)]
    fn add_source(&mut self, source_row: SourceRow, staged: Vec<StagedTemplate>, now: i32) -> (done:
        Result<AddSourceResult, StoreError>)
        ensures
            old(self).state().schema && old(self).source_ids_given() < i64::MAX && old(
                self,
            ).source_template_ids_given() + staged@.len() <= i64::MAX ==> done is Ok,
            !old(self).state().schema ==> done matches Err(StoreError::SchemaMissing),
            done matches Ok(added) ==> {
                &&& added.source_id == old(self).source_ids_given() + 1
                &&& final(self).source_ids_given() == added.source_id
                &&& final(self).source_template_ids_given() == old(
                    self,
                ).source_template_ids_given() + staged@.len()
                &&& forall|i: int|
                    0 <= i < staged@.len() ==> added.source_template_ids@[i] == old(
                        self,
                    ).source_template_ids_given() + 1 + i
            },
            done is Err ==> final(self).source_ids_given() == old(self).source_ids_given()
                && final(self).source_template_ids_given() == old(
                self,
            ).source_template_ids_given(),
            final(self).template_ids_given() == old(self).template_ids_given(),
    {
        proof {
            use_type_invariant(&*self);
        }
        if !self.schema {
            return Err(StoreError::SchemaMissing);
        }
        if self.source_ids == i64::MAX {
            return Err(StoreError::Exhausted);
        }
        let room: u64 = (i64::MAX - self.source_template_ids) as u64;
        if staged.len() as u64 > room {
            return Err(StoreError::Exhausted);
        }
        let ghost before = self.state();
        let ghost all = staged.deep_view();
        let first: i64 = self.source_template_ids;
        let source_id: i64 = self.source_ids + 1;

        let mut sources: Vec<SourceRecord> = Vec::new();
        std::mem::swap(&mut sources, &mut self.sources);
        sources.push(SourceRecord { id: source_id, row: source_row, created_at: now });
        assert(sources.deep_view() =~= before.sources.push(
            SourceRecordView { id: source_id, row: source_row@, created_at: now },
        ));

        let mut templates: Vec<SourceTemplateRecord> = Vec::new();
        std::mem::swap(&mut templates, &mut self.source_templates);
        let mut content: Vec<ContentRecord> = Vec::new();
        std::mem::swap(&mut content, &mut self.source_template_content);
        let mut ids: Vec<i64> = Vec::new();
        let mut last: i64 = first;
        let mut i: usize = 0;
        proof {
            assert(all.take(0) =~= Seq::empty());
            assert(templates.deep_view() =~= before.source_templates + staged_records(
                all.take(0),
                source_id,
                ids@,
                now,
            ));
            assert(content.deep_view() =~= before.source_template_content + staged_content(
                all.take(0),
                ids@,
                now,
            ));
        }
        while i < staged.len()
            invariant
                i <= staged@.len(),
                last == first + i,
                ids@.len() == i,
                forall|k: int| 0 <= k < i ==> ids@[k] == first + 1 + k,
                forall|k: int|
                    0 <= k < templates@.len() ==> 1 <= (#[trigger] templates@[k]).id <= last,
                templates.deep_view() == before.source_templates + staged_records(
                    all.take(i as int),
                    source_id,
                    ids@,
                    now,
                ),
                content.deep_view() == before.source_template_content + staged_content(
                    all.take(i as int),
                    ids@,
                    now,
                ),
            decreases staged@.len() - i,
        {
            let id: i64 = last + 1;
            let ghost prior_templates = templates.deep_view();
            let ghost prior_content = content.deep_view();
            let ghost prior_ids = ids@;
            let row = SourceTemplateRow::from_partial(source_id, &staged[i].row);
            templates.push(SourceTemplateRecord { id, row, created_at: now });
            let files = &staged[i].files;
            let ghost listed = files.deep_view();
            let mut k: usize = 0;
            assert(content.deep_view() =~= prior_content + records_of(listed.take(0), id, now));
            while k < files.len()
                invariant
                    k <= files@.len(),
                    listed == files.deep_view(),
                    content.deep_view() == prior_content + records_of(
                        listed.take(k as int),
                        id,
                        now,
                    ),
                decreases files@.len() - k,
            {
                let ghost so_far = content.deep_view();
                content.push(
                    ContentRecord {
                        owner_id: id,
                        file_path: files[k].path.clone(),
                        content: files[k].content.clone(),
                        created_at: now,
                    },
                );
                proof {
                    assert(listed.take(k as int + 1) =~= listed.take(k as int).push(
                        listed[k as int],
                    ));
                    assert(content.deep_view() =~= so_far.push(listed[k as int].record(id, now)));
                    assert(content.deep_view() =~= prior_content + records_of(
                        listed.take(k as int + 1),
                        id,
                        now,
                    ));
                }
                k += 1;
            }
            ids.push(id);
            last = id;
            proof {
                assert(listed.take(k as int) =~= listed);
                let longer = all.take(i as int + 1);
                assert(longer.drop_last() =~= all.take(i as int));
                assert(ids@.drop_last() =~= prior_ids);
                assert(longer.last() == all[i as int]);
                assert(all[i as int].files == listed);
                assert(staged_content(longer, ids@, now) =~= staged_content(
                    all.take(i as int),
                    prior_ids,
                    now,
                ) + records_of(listed, id, now));
                assert(content.deep_view() =~= before.source_template_content + staged_content(
                    longer,
                    ids@,
                    now,
                ));
                assert(staged_records(longer, source_id, ids@, now) =~= staged_records(
                    all.take(i as int),
                    source_id,
                    prior_ids,
                    now,
                ).push(
                    SourceTemplateRecordView {
                        id,
                        row: all[i as int].row.under(source_id),
                        created_at: now,
                    },
                ));
                assert(templates.deep_view() =~= prior_templates.push(
                    SourceTemplateRecordView {
                        id,
                        row: all[i as int].row.under(source_id),
                        created_at: now,
                    },
                ));
                assert(templates.deep_view() =~= before.source_templates + staged_records(
                    longer,
                    source_id,
                    ids@,
                    now,
                ));
            }
            i += 1;
        }
        proof {
            assert(all.take(i as int) =~= all);
            assert(fresh_ids(before, ids@)) by {
                assert forall|a: int| 0 <= a < ids@.len() implies !before.has_source_template(
                    #[trigger] ids@[a],
                ) by {
                    if before.has_source_template(ids@[a]) {
                        let w = choose|w: int|
                            0 <= w < before.source_templates.len() && (
                            #[trigger] before.source_templates[w]).id == ids@[a];
                        assert(old(self).source_templates@[w].id <= first);
                    }
                }
            }
            assert(!before.has_source(source_id)) by {
                if before.has_source(source_id) {
                    let w = choose|w: int|
                        0 <= w < before.sources.len() && (#[trigger] before.sources[w]).id
                            == source_id;
                    assert(old(self).sources@[w].id <= old(self).source_ids);
                }
            }
        }
        self.source_ids = source_id;
        self.source_template_ids = last;
        self.sources = sources;
        self.source_templates = templates;
        self.source_template_content = content;
        proof {
            let start = old(self).state();
            if start.ids_distinct() {
                let added = staged_records(all, source_id, ids@, now);
                assert(distinct_by(added, source_template_id())) by {
                    assert forall|a: int, b: int| 0 <= a < b < added.len() implies source_template_id()(
                        #[trigger] added[a],
                    ) != source_template_id()(#[trigger] added[b]) by {
                        assert(ids@[a] != ids@[b]);
                    }
                }
                assert forall|a: int| 0 <= a < added.len() implies !start.has_source_template(
                    (#[trigger] added[a]).id,
                ) by {
                    assert(!start.has_source_template(ids@[a]));
                }
                lemma_source_keeps_ids_distinct(
                    start,
                    SourceRecordView { id: source_id, row: source_row@, created_at: now },
                    added,
                    staged_content(all, ids@, now),
                );
            }
        }
        Ok(AddSourceResult { source_id, source_template_ids: ids })
    }

    #[verifier::loop_isolation(false)]
    fn list_sources(&self) -> (found: Result<Vec<SourceRow>, StoreError>)
        ensures
            self.state().schema ==> found is Ok,
            !self.state().schema ==> found matches Err(StoreError::SchemaMissing),
    {
        if !self.schema {
            return Err(StoreError::SchemaMissing);
        }
        let ghost all = self.sources.deep_view();
        let mut sorted: Vec<SourceRecord> = Vec::new();
        let mut i: usize = 0;
        assert(all.take(0) =~= Seq::empty());
        assert(sorted.deep_view() =~= Seq::empty());
        while i < self.sources.len()
            invariant
                i <= self.sources@.len(),
                newest_sources_first(sorted.deep_view()),
                sorted.deep_view().to_multiset() == all.take(i as int).to_multiset(),
            decreases self.sources@.len() - i,
        {
            let record = &self.sources[i];
            proof {
                assert(all.take(i as int + 1) =~= all.take(i as int).push(record@));
                to_multiset_build(all.take(i as int), record@);
            }
            insert_source(
                &mut sorted,
                SourceRecord { id: record.id, row: record.row.clone(), created_at: record.created_at },
            );
            i += 1;
        }
        assert(all.take(i as int) =~= all);
        let ghost records = sorted.deep_view();
        let mut list: Vec<SourceRow> = Vec::new();
        let mut k: usize = 0;
        assert(list.deep_view() =~= records.take(0).map_values(source_row_of()));
        while k < sorted.len()
            invariant
                k <= sorted@.len(),
                list.deep_view() == records.take(k as int).map_values(source_row_of()),
            decreases sorted@.len() - k,
        {
            let ghost prior = list.deep_view();
            list.push(sorted[k].row.clone());
            proof {
                assert(records.take(k as int + 1) =~= records.take(k as int).push(records[k as int]));
                assert(list.deep_view() =~= prior.push(records[k as int].row));
                assert(list.deep_view() =~= records.take(k as int + 1).map_values(
                    source_row_of(),
                ));
            }
            k += 1;
        }
        assert(records.take(k as int) =~= records);
        Ok(list)
    }
}

impl TemplateDb for MemoryCache {
    fn create_schema(&mut self) -> (done: Result<(), StoreError>)
        ensures
            done is Ok,
            final(self).template_ids_given() == old(self).template_ids_given(),
            final(self).source_ids_given() == old(self).source_ids_given(),
            final(self).source_template_ids_given() == old(self).source_template_ids_given(),
    {
        proof {
            use_type_invariant(&*self);
        }
        self.schema = true;
        Ok(())
    }
}

} // verus!
