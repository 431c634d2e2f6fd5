//! Text helpers: characters of a string, trimming, truncation.

use vstd::prelude::*;
use vstd::string::StrSliceExecFns;

verus! {

/// Whether a character has the Unicode property White_Space.
pub open spec fn is_white_space(c: char) -> bool {
    let n = c as u32;
    ||| 0x09 <= n <= 0x0D
    ||| n == 0x20
    ||| n == 0x85
    ||| n == 0xA0
    ||| n == 0x1680
    ||| 0x2000 <= n <= 0x200A
    ||| n == 0x2028
    ||| n == 0x2029
    ||| n == 0x202F
    ||| n == 0x205F
    ||| n == 0x3000
}

/// Whether a character is white space.
pub fn is_white_space_char(c: char) -> (white: bool)
    ensures
        white == is_white_space(c),
{
    let n: u32 = c as u32;
    (0x09 <= n && n <= 0x0D) || n == 0x20 || n == 0x85 || n == 0xA0 || n == 0x1680 || (0x2000 <= n
        && n <= 0x200A) || n == 0x2028 || n == 0x2029 || n == 0x202F || n == 0x205F || n == 0x3000
}

/// A text without its leading white space.
pub open spec fn trim_start(s: Seq<char>) -> Seq<char>
    decreases s.len(),
{
    if s.len() > 0 && is_white_space(s.first()) {
        trim_start(s.drop_first())
    } else {
        s
    }
}

/// A text without its trailing white space.
pub open spec fn trim_end(s: Seq<char>) -> Seq<char>
    decreases s.len(),
{
    if s.len() > 0 && is_white_space(s.last()) {
        trim_end(s.drop_last())
    } else {
        s
    }
}

/// A text without leading and trailing white space.
pub open spec fn trimmed(s: Seq<char>) -> Seq<char> {
    trim_end(trim_start(s))
}

/// Whether a text neither starts nor ends with white space.
pub open spec fn is_trim(s: Seq<char>) -> bool {
    s.len() > 0 ==> !is_white_space(s.first()) && !is_white_space(s.last())
}

/// A text that neither starts nor ends with white space is its own trimmed
/// form.
pub proof fn lemma_trim_of_trim(s: Seq<char>)
    requires
        is_trim(s),
    ensures
        trimmed(s) == s,
{
}

/// What is left of a text without its leading white space does not start
/// with white space, and ends as the text did.
pub proof fn lemma_trim_start(s: Seq<char>)
    ensures
        trim_start(s).len() > 0 ==> !is_white_space(trim_start(s).first()) && trim_start(s).last()
            == s.last(),
        trim_start(s).len() <= s.len(),
    decreases s.len(),
{
    if s.len() > 0 && is_white_space(s.first()) {
        lemma_trim_start(s.drop_first());
    }
}

/// What is left of a text without its trailing white space does not end
/// with white space, and starts as the text did.
pub proof fn lemma_trim_end(s: Seq<char>)
    ensures
        trim_end(s).len() > 0 ==> !is_white_space(trim_end(s).last()) && trim_end(s).first()
            == s.first(),
    decreases s.len(),
{
    if s.len() > 0 && is_white_space(s.last()) {
        lemma_trim_end(s.drop_last());
    }
}

/// A trimmed text neither starts nor ends with white space.
pub proof fn lemma_trimmed_is_trim(s: Seq<char>)
    ensures
        is_trim(trimmed(s)),
        trimmed(trimmed(s)) == trimmed(s),
{
    lemma_trim_start(s);
    lemma_trim_end(trim_start(s));
    lemma_trim_of_trim(trimmed(s));
}

/// A text is blank when nothing is left of it after trimming.
pub open spec fn is_blank(s: Seq<char>) -> bool {
    trimmed(s).len() == 0
}

/// A text without leading and trailing white space.
pub fn trim(s: &str) -> (r: &str)
    ensures
        r@ == trimmed(s@),
{
    let chars = chars_of(s);
    let mut start: usize = 0;
    assert(chars@.skip(0) =~= chars@);
    while start < chars.len() && is_white_space_char(chars[start])
        invariant
            start <= chars@.len(),
            trim_start(chars@) == trim_start(chars@.skip(start as int)),
        decreases chars@.len() - start,
    {
        assert(chars@.skip(start as int).drop_first() =~= chars@.skip(start as int + 1));
        start += 1;
    }
    assert(trim_start(chars@) == chars@.skip(start as int));
    let mut end: usize = chars.len();
    assert(chars@.subrange(start as int, end as int) =~= chars@.skip(start as int));
    while end > start && is_white_space_char(chars[end - 1])
        invariant
            start <= end <= chars@.len(),
            trimmed(chars@) == trim_end(chars@.subrange(start as int, end as int)),
        decreases end,
    {
        assert(chars@.subrange(start as int, end as int).drop_last() =~= chars@.subrange(
            start as int,
            end as int - 1,
        ));
        end -= 1;
    }
    assert(trimmed(chars@) == chars@.subrange(start as int, end as int)) by {
        let kept = chars@.subrange(start as int, end as int);
        if kept.len() > 0 {
            assert(kept.last() == chars@[end as int - 1]);
        }
    }
    s.substring_char(start, end)
}

/// A copy of an optional text.
pub fn clone_opt_string(o: &Option<String>) -> (copy: Option<String>)
    ensures
        copy.deep_view() == o.deep_view(),
{
    match o {
        Some(s) => Some(s.clone()),
        None => None,
    }
}

/// A copy of a list of texts.
pub fn clone_strings(v: &Vec<String>) -> (copy: Vec<String>)
    ensures
        copy.deep_view() == v.deep_view(),
{
    let mut copy: Vec<String> = Vec::new();
    let mut i: usize = 0;
    while i < v.len()
        invariant
            i <= v@.len(),
            copy@.len() == i,
            forall|j: int| 0 <= j < i ==> (#[trigger] copy@[j])@ == v@[j]@,
        decreases v@.len() - i,
    {
        copy.push(v[i].clone());
        i += 1;
    }
    assert(copy.deep_view() =~= v.deep_view());
    copy
}

/// An optional text, or a dash where there is none.
pub fn text_or_dash(o: Option<String>) -> (text: String)
    ensures
        text@ == match o.deep_view() {
            Some(t) => t,
            None => seq!['-'],
        },
{
    match o {
        Some(s) => s,
        None => {
            proof {
                reveal_strlit("-");
                assert("-"@ =~= seq!['-']);
            }
            "-".to_owned()
        },
    }
}

/// The characters of a text, in order.
pub fn chars_of(s: &str) -> (v: Vec<char>)
    ensures
        v@ == s@,
{
    let mut v: Vec<char> = Vec::new();
    for c in it: s.chars()
        invariant
            it.seq() == s@,
            v@ == s@.take(it.index()),
    {
        v.push(c);
    }
    v
}

/// The first `max_chars` characters of a text, or all of it if it is shorter.
pub fn truncate_to_char_count(s: &str, max_chars: usize) -> (out: String)
    ensures
        out@ == if max_chars <= s@.len() { s@.take(max_chars as int) } else { s@ },
{
    let len = s.unicode_len();
    let kept = if max_chars <= len { max_chars } else { len };
    let out = s.substring_char(0, kept).to_owned();
    assert(s@.subrange(0, kept as int) =~= s@.take(kept as int));
    assert(s@.take(len as int) =~= s@);
    out
}

/// A text as an optional value: `None` for a blank text, otherwise the text
/// as it was given, untrimmed.
pub fn string_to_option(s: &str) -> (out: Option<String>)
    ensures
        is_blank(s@) <==> out is None,
        out matches Some(t) ==> t@ == s@,
{
    if trim(s).is_empty() {
        None
    } else {
        Some(s.to_owned())
    }
}

/// Whether `needle` stands in `hay` at place `at`.
pub open spec fn occurs_at(hay: Seq<char>, needle: Seq<char>, at: int) -> bool {
    0 <= at && at + needle.len() <= hay.len() && hay.subrange(at, at + needle.len()) == needle
}

/// Whether `needle` stands somewhere in `hay`.
pub open spec fn text_contains(hay: Seq<char>, needle: Seq<char>) -> bool {
    exists|at: int| occurs_at(hay, needle, at)
}

/// Whether one list of characters stands in another at a given place.
pub(crate) fn matches_at(hay: &Vec<char>, needle: &Vec<char>, at: usize) -> (found: bool)
    requires
        at + needle@.len() <= hay@.len(),
    ensures
        found == occurs_at(hay@, needle@, at as int),
{
    let mut k: usize = 0;
    let n = hay.len();
    while k < needle.len()
        invariant
            k <= needle@.len(),
            n == hay@.len(),
            at + needle@.len() <= hay@.len(),
            forall|j: int| 0 <= j < k ==> hay@[at + j] == needle@[j],
        decreases needle@.len() - k,
    {
        if hay[at + k] != needle[k] {
            assert(hay@.subrange(at as int, at + needle@.len())[k as int] != needle@[k as int]);
            return false;
        }
        k += 1;
    }
    assert(hay@.subrange(at as int, at + needle@.len()) =~= needle@);
    true
}

/// Whether one list of characters stands somewhere in another.
pub fn chars_contain(hay: &Vec<char>, needle: &Vec<char>) -> (found: bool)
    ensures
        found == text_contains(hay@, needle@),
{
    if needle.len() > hay.len() {
        assert forall|at: int| !occurs_at(hay@, needle@, at) by {}
        return false;
    }
    let last: usize = hay.len() - needle.len();
    let mut at: usize = 0;
    loop
        invariant
            at <= last,
            last == hay@.len() - needle@.len(),
            forall|j: int| 0 <= j < at ==> !occurs_at(hay@, needle@, j),
        decreases last - at,
    {
        if matches_at(hay, needle, at) {
            return true;
        }
        if at == last {
            assert forall|j: int| !occurs_at(hay@, needle@, j) by {}
            return false;
        }
        at += 1;
    }
}

/// Whether one text stands somewhere in another.
pub fn str_contains(hay: &str, needle: &str) -> (found: bool)
    ensures
        found == text_contains(hay@, needle@),
{
    let h = chars_of(hay);
    let n = chars_of(needle);
    chars_contain(&h, &n)
}

} // verus!
