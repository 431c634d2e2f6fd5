//! Listing the installed templates.

use crate::db::local_db::{CacheState, TemplateDb};
use crate::db::template::{
    ordered, timestamp_writable, TabledTemplateListResult, TemplateMethods, TemplateOrder,
    TemplateResult, TemplateResultView,
};
use crate::error::{ErrorKind, Phase, PipelineError};
use crate::state::AppState;
use crate::util::time::timestamp_cell;
use vstd::prelude::*;

verus! {

/// The request to list the installed templates.
#[derive(Debug)]
pub struct List {
    pub public: bool,
    pub private: bool,
}

/// Lists the installed templates, newest first.
pub fn list<D: TemplateDb>(app_state: &AppState<D>, _cmd: &List) -> (found: Result<
    Vec<TemplateResult>,
    PipelineError,
>)
    ensures
        match found {
            Ok(rows) => {
                &&& rows.deep_view().to_multiset()
                    == app_state.local_db.state().templates.to_multiset()
                &&& ordered(TemplateOrder::NewestFirst, rows.deep_view())
            },
            Err(e) => e.kind == ErrorKind::StoreFailure && e.phase == Phase::Lookup,
        },
        app_state.local_db.dependable() && app_state.local_db.state().schema ==> found is Ok,
{
    match app_state.local_db.list_templates(None) {
        Ok(rows) => Ok(rows),
        Err(e) => {
            let said = e.message();
            Err(PipelineError::new(ErrorKind::StoreFailure, Phase::Lookup, said.as_str()))
        },
    }
}

/// Whether a row of a table shows a template.
pub open spec fn tabled_template(out: TabledTemplateListResult, row: TemplateResultView) -> bool {
    &&& out.id == row.id
    &&& out.name@ == row.name
    &&& out.lang@ == row.lang
    &&& out.repo@ == row.repo
    &&& out.created_at@ == timestamp_cell(row.created_at)
    &&& out.updated_at@ == timestamp_cell(row.updated_at)
}

/// Whether the timestamps of a template can be written.
pub open spec fn writable(row: TemplateResultView) -> bool {
    timestamp_writable(row.created_at) && timestamp_writable(row.updated_at)
}

/// Whether a timestamp, if there is one, can be written.
fn can_write(timestamp: Option<i32>) -> (ok: bool)
    ensures
        ok == timestamp_writable(timestamp),
{
    match timestamp {
        Some(t) => t >= 0,
        None => true,
    }
}

/// The rows of the table that shows the templates, one for one. `None`
/// where a template has a timestamp before the epoch, which cannot be
/// written.
pub fn tabled_templates(rows: &Vec<TemplateResult>) -> (shown: Option<
    Vec<TabledTemplateListResult>,
>)
    ensures
        match shown {
            Some(table) => {
                &&& table@.len() == rows@.len()
                &&& forall|i: int|
                    0 <= i < rows@.len() ==> writable(#[trigger] rows.deep_view()[i])
                        && tabled_template(table@[i], rows.deep_view()[i])
            },
            None => exists|i: int| 0 <= i < rows@.len() && !writable(#[trigger] rows.deep_view()[i]),
        },
{
    let mut table: Vec<TabledTemplateListResult> = Vec::new();
    let mut i: usize = 0;
    while i < rows.len()
        invariant
            i <= rows@.len(),
            table@.len() == i,
            forall|j: int|
                0 <= j < i ==> writable(#[trigger] rows.deep_view()[j]) && tabled_template(
                    table@[j],
                    rows.deep_view()[j],
                ),
        decreases rows@.len() - i,
    {
        if !can_write(rows[i].created_at) || !can_write(rows[i].updated_at) {
            assert(!writable(rows.deep_view()[i as int]));
            return None;
        }
        table.push(TabledTemplateListResult::from(rows[i].clone()));
        i += 1;
    }
    Some(table)
}

} // verus!
