//! Searching the indexed content of installed templates and of sources.

use crate::db::local_db::{matcher_of, CacheState, CacheView, Matcher, TemplateDb};
use crate::db::template::{
    text_cell, SearchResult, SearchResultView, TabledSearchResult, TemplateMethods,
};
use crate::error::{ErrorKind, Phase, PipelineError};
use crate::state::AppState;
use crate::util::string::{is_blank, trim, trimmed};
use vstd::prelude::*;

verus! {

/// The request to search.
#[derive(Debug)]
pub struct Search {
    pub term: String,
    pub local: bool,
    pub src: Option<String>,
}

/// Where to search.
#[derive(Debug)]
pub enum SearchScope {
    /// Among the installed templates.
    Local,
    /// Among the templates of the source with this name.
    Source(String),
    /// Among the installed templates, then among the templates of all
    /// sources.
    All,
}

/// The mathematical value of a [`SearchScope`].
pub enum SearchScopeView {
    Local,
    Source(Seq<char>),
    All,
}

impl View for SearchScope {
    type V = SearchScopeView;

    open spec fn view(&self) -> SearchScopeView {
        match self {
            SearchScope::Local => SearchScopeView::Local,
            SearchScope::Source(name) => SearchScopeView::Source(name@),
            SearchScope::All => SearchScopeView::All,
        }
    }
}

/// The scope that a request asks for: the installed templates if it says
/// so, else the source that it names, else everything.
pub open spec fn scope_of(local: bool, src: Option<Seq<char>>) -> SearchScopeView {
    if local {
        SearchScopeView::Local
    } else {
        match src {
            Some(name) => SearchScopeView::Source(name),
            None => SearchScopeView::All,
        }
    }
}

impl SearchScope {
    /// The scope that a request asks for.
    pub fn from(cmd: &Search) -> (scope: Self)
        ensures
            scope@ == scope_of(cmd.local, cmd.src.deep_view()),
    {
        if cmd.local {
            SearchScope::Local
        } else {
            match &cmd.src {
                Some(source_name) => SearchScope::Source(source_name.clone()),
                None => SearchScope::All,
            }
        }
    }
}

/// Whether a list holds the same results as another, in any order.
pub open spec fn same_results(list: Seq<SearchResultView>, wanted: Seq<SearchResultView>) -> bool {
    list.to_multiset() == wanted.to_multiset()
}

/// Whether a list is what a search in a scope reports. In the scope of the
/// installed templates these are the templates with matching content, and
/// nothing of a source; in the scope of a source, the templates of sources
/// of that name with matching content, and nothing that is installed; in
/// the scope of everything, the first followed by the templates of all
/// sources.
pub open spec fn scoped_results(
    state: CacheView,
    matcher: Matcher,
    term: Seq<char>,
    scope: SearchScopeView,
    list: Seq<SearchResultView>,
) -> bool {
    match scope {
        SearchScopeView::Local => same_results(list, state.template_hits(trimmed(term), matcher)),
        SearchScopeView::Source(name) => same_results(
            list,
            state.source_hits(Some(name), trimmed(term), matcher),
        ),
        SearchScopeView::All => exists|n: int|
            0 <= n <= list.len() && same_results(
                #[trigger] list.take(n),
                state.template_hits(trimmed(term), matcher),
            ) && same_results(list.skip(n), state.source_hits(None, trimmed(term), matcher)),
    }
}

/// The list that a search in a scope returns: what the store returns for
/// the installed templates, or for the source; in the scope of everything
/// the first list followed by the list for all sources, each in the order
/// in which the store returned it.
pub open spec fn scoped_answer<D: TemplateDb>(
    cache: &D,
    term: Seq<char>,
    scope: SearchScopeView,
) -> Seq<SearchResultView> {
    match scope {
        SearchScopeView::Local => cache.local_answer(trimmed(term)),
        SearchScopeView::Source(name) => cache.sources_answer(Some(name), trimmed(term)),
        SearchScopeView::All => cache.local_answer(trimmed(term)) + cache.sources_answer(
            None,
            trimmed(term),
        ),
    }
}

/// Searches the indexed content in a scope, and returns what the store
/// returned, as it returned it: nothing is dropped, merged or put in
/// another order. Nothing but a failure of the store makes the search
/// fail: on a dependable store with its tables it succeeds.
pub fn search_templates<D: TemplateDb>(cache: &D, term: &str, scope: SearchScope) -> (found: Result<
    Vec<SearchResult>,
    crate::db::local_db::StoreError,
>)
    ensures
        found matches Ok(list) ==> scoped_results(
            cache.state(),
            matcher_of::<D>(),
            term@,
            scope@,
            list.deep_view(),
        ),
        found matches Ok(list) ==> list.deep_view() == scoped_answer(cache, term@, scope@),
        cache.dependable() && cache.state().schema ==> found is Ok,
{
    match scope {
        SearchScope::Local => cache.search_templates(term),
        SearchScope::Source(name) => cache.search_sources(Some(name), term),
        SearchScope::All => {
            let mut all_results: Vec<SearchResult> = Vec::new();
            let mut local = match cache.search_templates(term) {
                Ok(local) => local,
                Err(e) => {
                    return Err(e);
                },
            };
            let ghost first = local.deep_view();
            all_results.append(&mut local);
            let mut sources = match cache.search_sources(None, term) {
                Ok(sources) => sources,
                Err(e) => {
                    return Err(e);
                },
            };
            let ghost second = sources.deep_view();
            all_results.append(&mut sources);
            proof {
                let list = all_results.deep_view();
                assert(list =~= first + second);
                assert(list.take(first.len() as int) =~= first);
                assert(list.skip(first.len() as int) =~= second);
            }
            Ok(all_results)
        },
    }
}

/// The mathematical value of a [`TabledSearchResult`].
pub struct TabledSearchResultView {
    pub kind: crate::db::template::SearchResultKind,
    pub id: i64,
    pub name: Seq<char>,
    pub lang: Seq<char>,
    pub repo: Seq<char>,
    pub branch: Seq<char>,
    pub subdir: Seq<char>,
}

/// The table row of a search result.
pub open spec fn tabled(sr: SearchResultView) -> TabledSearchResultView {
    TabledSearchResultView {
        kind: sr.kind,
        id: sr.id,
        name: sr.name,
        lang: sr.lang,
        repo: sr.repo,
        branch: text_cell(sr.branch),
        subdir: text_cell(sr.subdir),
    }
}

/// The value of a table row.
pub open spec fn row_view(row: TabledSearchResult) -> TabledSearchResultView {
    TabledSearchResultView {
        kind: row.kind,
        id: row.id,
        name: row.name@,
        lang: row.lang@,
        repo: row.repo@,
        branch: row.branch@,
        subdir: row.subdir@,
    }
}

/// Whether the rows are the table rows of the results, one for one.
pub open spec fn rows_of(rows: Seq<TabledSearchResult>, results: Seq<SearchResultView>) -> bool {
    &&& rows.len() == results.len()
    &&& forall|i: int| 0 <= i < rows.len() ==> row_view(#[trigger] rows[i]) == tabled(results[i])
}

/// Searches as a request asks and returns the rows of the table that shows
/// the results. A blank term is refused before the store is asked.
#[verifier::loop_isolation(false)]
pub fn search<D: TemplateDb>(app_state: &AppState<D>, cmd: &Search) -> (shown: Result<
    Vec<TabledSearchResult>,
    PipelineError,
>)
    ensures
        is_blank(cmd.term@) <==> (shown matches Err(e) && e.kind == ErrorKind::BlankQuery),
        shown matches Ok(rows) ==> exists|results: Seq<SearchResultView>|
            #[trigger] scoped_results(
                app_state.local_db.state(),
                matcher_of::<D>(),
                cmd.term@,
                scope_of(cmd.local, cmd.src.deep_view()),
                results,
            ) && rows_of(rows@, results),
        shown matches Ok(rows) ==> rows_of(
            rows@,
            scoped_answer(&app_state.local_db, cmd.term@, scope_of(cmd.local, cmd.src.deep_view())),
        ),
        shown matches Err(e) ==> e.kind == ErrorKind::BlankQuery || e.kind
            == ErrorKind::StoreFailure,
        app_state.local_db.dependable() && app_state.local_db.state().schema && !is_blank(
            cmd.term@,
        ) ==> shown is Ok,
{
    let term = trim(cmd.term.as_str());
    if term.is_empty() {
        return Err(
            PipelineError::new(
                ErrorKind::BlankQuery,
                Phase::Lookup,
                "No search? Use `list` to see all installed templates.",
            ),
        );
    }
    proof {
        lemma_trim_twice(cmd.term@);
    }
    let scope = SearchScope::from(cmd);
    let results = match search_templates(&app_state.local_db, term, scope) {
        Ok(results) => results,
        Err(e) => {
            let said = e.message();
            return Err(PipelineError::new(ErrorKind::StoreFailure, Phase::Lookup, said.as_str()));
        },
    };
    let ghost found = results.deep_view();
    assert(scoped_results(
        app_state.local_db.state(),
        matcher_of::<D>(),
        cmd.term@,
        scope_of(cmd.local, cmd.src.deep_view()),
        found,
    ));
    let mut rows: Vec<TabledSearchResult> = Vec::new();
    let mut i: usize = 0;
    while i < results.len()
        invariant
            i <= results@.len(),
            found == results.deep_view(),
            rows@.len() == i,
            forall|j: int| 0 <= j < i ==> row_view(#[trigger] rows@[j]) == tabled(found[j]),
        decreases results@.len() - i,
    {
        rows.push(TabledSearchResult::from(results[i].clone()));
        i += 1;
    }
    Ok(rows)
}

/// What a search among the installed templates reports is installed, and
/// what a search in a source reports belongs to a source: no result of one
/// scope shows up in the other.
pub proof fn lemma_scopes_are_apart(
    state: CacheView,
    matcher: Matcher,
    term: Seq<char>,
    scope: SearchScopeView,
    list: Seq<SearchResultView>,
    i: int,
)
    requires
        scoped_results(state, matcher, term, scope, list),
        0 <= i < list.len(),
    ensures
        scope is Local ==> list[i].kind == crate::db::template::SearchResultKind::Template,
        scope is Source ==> list[i].kind == crate::db::template::SearchResultKind::Source,
{
    match scope {
        SearchScopeView::Local => {
            let hits = state.template_hits(trimmed(term), matcher);
            vstd::seq_lib::to_multiset_contains(list, list[i]);
            vstd::seq_lib::to_multiset_contains(hits, list[i]);
            assert(list.contains(list[i]));
            let w = choose|w: int| 0 <= w < hits.len() && hits[w] == list[i];
            assert(hits[w].kind == crate::db::template::SearchResultKind::Template);
        },
        SearchScopeView::Source(name) => {
            let hits = state.source_hits(Some(name), trimmed(term), matcher);
            vstd::seq_lib::to_multiset_contains(list, list[i]);
            vstd::seq_lib::to_multiset_contains(hits, list[i]);
            assert(list.contains(list[i]));
            let w = choose|w: int| 0 <= w < hits.len() && hits[w] == list[i];
            assert(hits[w].kind == crate::db::template::SearchResultKind::Source);
        },
        SearchScopeView::All => {},
    }
}

/// A trimmed text has no white space at its ends, so trimming it again
/// changes nothing.
pub proof fn lemma_trim_twice(s: Seq<char>)
    ensures
        trimmed(trimmed(s)) == trimmed(s),
{
    crate::util::string::lemma_trimmed_is_trim(s);
}

} // verus!
