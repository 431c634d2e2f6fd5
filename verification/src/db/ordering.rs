//! Lists of templates in order: comparison of texts and insertion into an
//! ordered list.

use crate::db::template::{
    in_order,
    ordered,
    text_le,
    TemplateOrder,
    TemplateResult,
    TemplateResultView,
};
use crate::util::string::chars_of;
use vstd::prelude::*;
use vstd::seq_lib::to_multiset_insert;

verus! {

/// Distinct characters have distinct numbers.
pub proof fn lemma_distinct_chars(x: char, y: char)
    requires
        x != y,
    ensures
        x as u32 != y as u32,
{
}

/// Of two texts, one comes before the other or is equal to it.
pub proof fn lemma_text_le_total(a: Seq<char>, b: Seq<char>)
    ensures
        text_le(a, b) || text_le(b, a),
    decreases a.len(),
{
    if a.len() > 0 && b.len() > 0 {
        if a[0] == b[0] {
            lemma_text_le_total(a.drop_first(), b.drop_first());
        } else {
            lemma_distinct_chars(a[0], b[0]);
        }
    }
}

/// The order of texts is transitive.
pub proof fn lemma_text_le_transitive(a: Seq<char>, b: Seq<char>, c: Seq<char>)
    requires
        text_le(a, b),
        text_le(b, c),
    ensures
        text_le(a, c),
    decreases a.len(),
{
    if a.len() > 0 && b.len() > 0 && c.len() > 0 && a[0] == b[0] && b[0] == c[0] {
        lemma_text_le_transitive(a.drop_first(), b.drop_first(), c.drop_first());
    }
}

/// Either of two templates may stand before the other.
pub proof fn lemma_in_order_total(
    order: TemplateOrder,
    a: TemplateResultView,
    b: TemplateResultView,
)
    ensures
        in_order(order, a, b) || in_order(order, b, a),
{
    lemma_text_le_total(a.name, b.name);
}

/// Standing before is transitive.
pub proof fn lemma_in_order_transitive(
    order: TemplateOrder,
    a: TemplateResultView,
    b: TemplateResultView,
    c: TemplateResultView,
)
    requires
        in_order(order, a, b),
        in_order(order, b, c),
    ensures
        in_order(order, a, c),
{
    if order == TemplateOrder::NameAscending {
        lemma_text_le_transitive(a.name, b.name, c.name);
    }
}

/// Whether one text comes before another or equals it.
pub fn text_precedes(a: &str, b: &str) -> (le: bool)
    ensures
        le == text_le(a@, b@),
{
    let x = chars_of(a);
    let y = chars_of(b);
    let mut i: usize = 0;
    assert(x@.skip(0) =~= x@ && y@.skip(0) =~= y@);
    while i < x.len() && i < y.len() && x[i] == y[i]
        invariant
            i <= x@.len(),
            i <= y@.len(),
            text_le(x@, y@) == text_le(x@.skip(i as int), y@.skip(i as int)),
        decreases x@.len() - i,
    {
        assert(x@.skip(i as int).drop_first() =~= x@.skip(i as int + 1));
        assert(y@.skip(i as int).drop_first() =~= y@.skip(i as int + 1));
        i += 1;
    }
    if i >= x.len() {
        true
    } else if i >= y.len() {
        false
    } else {
        (x[i] as u32) < (y[i] as u32)
    }
}

/// Whether one template may stand before another in the given order.
pub fn precedes(order: TemplateOrder, a: &TemplateResult, b: &TemplateResult) -> (le: bool)
    ensures
        le == in_order(order, a@, b@),
{
    match order {
        TemplateOrder::NameAscending => text_precedes(a.name.as_str(), b.name.as_str()),
        TemplateOrder::NewestFirst => match (a.created_at, b.created_at) {
            (Some(x), Some(y)) => x >= y,
            (Some(_), None) => true,
            (None, Some(_)) => false,
            (None, None) => true,
        },
    }
}

/// Puts a template into an ordered list, behind the templates that may
/// stand before it. The list stays in order and gains this one template.
pub(crate) fn insert_in_order(list: &mut Vec<TemplateResult>, t: TemplateResult, order: TemplateOrder)
    requires
        ordered(order, old(list).deep_view()),
    ensures
        ordered(order, final(list).deep_view()),
        final(list).deep_view().to_multiset() == old(list).deep_view().to_multiset().insert(t@),
        final(list)@.len() == old(list)@.len() + 1,
{
    let ghost before = list.deep_view();
    let mut at: usize = 0;
    while at < list.len() && precedes(order, &list[at], &t)
        invariant
            at <= list@.len(),
            list.deep_view() == before,
            forall|j: int| 0 <= j < at ==> in_order(order, #[trigger] before[j], t@),
        decreases list@.len() - at,
    {
        at += 1;
    }
    list.insert(at, t);
    proof {
        let after = list.deep_view();
        assert(after =~= before.insert(at as int, t@));
        to_multiset_insert(before, at as int, t@);
        assert forall|i: int, j: int| 0 <= i < j < after.len() implies in_order(
            order,
            after[i],
            after[j],
        ) by {
            if j < at {
            } else if j == at {
            } else if i == at {
                lemma_in_order_total(order, before[at as int], t@);
                if j - 1 > at {
                    lemma_in_order_transitive(order, t@, before[at as int], before[j - 1]);
                }
            } else if i < at {
                assert(in_order(order, before[i], before[j - 1]));
            } else {
                assert(in_order(order, before[i - 1], before[j - 1]));
            }
        }
    }
}

} // verus!
