//! The placeholders of a template: which variables its files name.

use crate::error::{ErrorKind, Phase, PipelineError, PipelineErrorView};
use vstd::prelude::*;

verus! {

/// The pattern of a placeholder: a name in double braces, with optional
/// white space around it. The name is made of word characters and hyphens.
pub const JINJA_VAR_REGEX: &'static str = r"\{\{\s*([\w_-]+)\s*\}\}";

/// The matches of a pattern in a text, one after the other, as the `regex`
/// crate finds them: for each match the text of every group, the whole
/// match first, `None` for a group that took no part. `None` for a pattern
/// that the crate does not accept.
pub uninterp spec fn regex_captures(pattern: Seq<char>, text: Seq<char>) -> Option<
    Seq<Seq<Option<Seq<char>>>>,
>;

/// Calls `Regex::new` and `Regex::captures_iter` of the `regex` crate. The
/// contract names what they find and claims nothing of it.
#[verifier::external_body]
fn captures_of(pattern: &str, text: &str) -> (found: Option<Vec<Vec<Option<String>>>>)
    ensures
        found.deep_view() == regex_captures(pattern@, text@),
{
    let re = regex::Regex::new(pattern).ok()?;
    Some(
        re.captures_iter(text).map(
            |caps| caps.iter().map(|group| group.map(|m| m.as_str().to_string())).collect(),
        ).collect(),
    )
}

/// The texts of the groups of one match that took part, without the whole
/// match.
pub open spec fn group_texts(groups: Seq<Option<Seq<char>>>) -> Seq<Seq<char>>
    decreases groups.len(),
{
    if groups.len() <= 1 {
        Seq::empty()
    } else {
        match groups.last() {
            Some(text) => group_texts(groups.drop_last()).push(text),
            None => group_texts(groups.drop_last()),
        }
    }
}

/// The texts of the groups of all matches, match after match.
pub open spec fn captured_names(matches: Seq<Seq<Option<Seq<char>>>>) -> Seq<Seq<char>>
    decreases matches.len(),
{
    if matches.len() == 0 {
        Seq::empty()
    } else {
        captured_names(matches.drop_last()) + group_texts(matches.last())
    }
}

/// Collects the texts of the groups of all matches: of each match every
/// group but the first, as far as it took part.
pub fn names_in_captures(matches: &Vec<Vec<Option<String>>>) -> (names: Vec<String>)
    ensures
        names.deep_view() == captured_names(matches.deep_view()),
{
    let ghost all = matches.deep_view();
    let mut names: Vec<String> = Vec::new();
    let mut i: usize = 0;
    assert(all.take(0) =~= Seq::empty());
    assert(names.deep_view() =~= captured_names(all.take(0)));
    while i < matches.len()
        invariant
            i <= matches@.len(),
            all == matches.deep_view(),
            names.deep_view() == captured_names(all.take(i as int)),
        decreases matches@.len() - i,
    {
        let groups = &matches[i];
        let ghost listed = groups.deep_view();
        let ghost before = names.deep_view();
        let mut k: usize = 1;
        proof {
            assert(listed == all[i as int]);
            if listed.len() >= 1 {
                assert(listed.take(1).len() == 1);
            } else {
                assert(listed.take(listed.len() as int) =~= listed);
            }
        }
        while k < groups.len()
            invariant
                1 <= k,
                k <= groups@.len() || groups@.len() == 0,
                listed == groups.deep_view(),
                names.deep_view() == before + group_texts(
                    listed.take(if k <= listed.len() { k as int } else { 0 }),
                ),
            decreases groups@.len() - k,
        {
            let ghost so_far = names.deep_view();
            proof {
                let longer = listed.take(k as int + 1);
                assert(longer.drop_last() =~= listed.take(k as int));
                assert(longer.last() == listed[k as int]);
            }
            match &groups[k] {
                Some(text) => {
                    names.push(text.clone());
                    assert(names.deep_view() =~= so_far.push(text@));
                },
                None => {},
            }
            k += 1;
        }
        proof {
            if listed.len() >= 1 {
                assert(listed.take(k as int) =~= listed);
            } else {
                assert(listed.take(0) =~= listed);
            }
            let longer = all.take(i as int + 1);
            assert(longer.drop_last() =~= all.take(i as int));
            assert(longer.last() == listed);
        }
        i += 1;
    }
    assert(all.take(i as int) =~= all);
    names
}

/// The names of the placeholders of a text, in the order in which they
/// stand, or `None` where the pattern is not accepted.
pub open spec fn placeholder_names(text: Seq<char>) -> Option<Seq<Seq<char>>> {
    match regex_captures(JINJA_VAR_REGEX@, text) {
        Some(matches) => Some(captured_names(matches)),
        None => None,
    }
}

/// Finds the names of the placeholders in a text, one for each placeholder,
/// in order. `None` where the engine does not accept the pattern.
pub fn find_vars_in_text(text: &str) -> (names: Option<Vec<String>>)
    ensures
        names.deep_view() == placeholder_names(text@),
{
    match captures_of(JINJA_VAR_REGEX, text) {
        Some(matches) => Some(names_in_captures(&matches)),
        None => None,
    }
}

/// What the walk of a directory tree met at one place.
#[derive(Debug)]
pub enum WalkEntry {
    /// A directory.
    Directory,
    /// A file that was read: its text.
    File(String),
    /// A place that could not be walked: what the walk said.
    WalkFailed(String),
    /// A file that could not be read: what the reading said.
    ReadFailed(String),
}

/// The mathematical value of a [`WalkEntry`].
pub enum WalkEntryView {
    Directory,
    File(Seq<char>),
    WalkFailed(Seq<char>),
    ReadFailed(Seq<char>),
}

impl View for WalkEntry {
    type V = WalkEntryView;

    open spec fn view(&self) -> WalkEntryView {
        match self {
            WalkEntry::Directory => WalkEntryView::Directory,
            WalkEntry::File(text) => WalkEntryView::File(text@),
            WalkEntry::WalkFailed(said) => WalkEntryView::WalkFailed(said@),
            WalkEntry::ReadFailed(said) => WalkEntryView::ReadFailed(said@),
        }
    }
}

impl DeepView for WalkEntry {
    type V = WalkEntryView;

    open spec fn deep_view(&self) -> WalkEntryView {
        self@
    }
}

/// Whether an entry is a failure of the walk or of reading.
pub open spec fn is_failure(entry: WalkEntryView) -> bool {
    entry is WalkFailed || entry is ReadFailed
}

/// The failure that an entry stands for, if it is one.
pub open spec fn failure_of(entry: WalkEntryView) -> Option<PipelineErrorView> {
    match entry {
        WalkEntryView::WalkFailed(said) => Some(
            PipelineErrorView { kind: ErrorKind::WalkError, phase: Phase::Variables, detail: said },
        ),
        WalkEntryView::ReadFailed(said) => Some(
            PipelineErrorView { kind: ErrorKind::IoError, phase: Phase::Variables, detail: said },
        ),
        _ => None,
    }
}

/// The failure for a pattern that the engine does not accept.
pub open spec fn pattern_failure() -> PipelineErrorView {
    PipelineErrorView {
        kind: ErrorKind::InvalidPattern,
        phase: Phase::Variables,
        detail: JINJA_VAR_REGEX@,
    }
}

/// All names of the placeholders in the files among the entries, file after
/// file, with repetitions. `None` where the pattern is not accepted for one
/// of the files.
pub open spec fn all_names(entries: Seq<WalkEntryView>) -> Option<Seq<Seq<char>>>
    decreases entries.len(),
{
    if entries.len() == 0 {
        Some(Seq::empty())
    } else {
        match all_names(entries.drop_last()) {
            None => None,
            Some(before) => match entries.last() {
                WalkEntryView::File(text) => match placeholder_names(text) {
                    Some(names) => Some(before + names),
                    None => None,
                },
                _ => Some(before),
            },
        }
    }
}

/// Whether a list names every variable once, and the same variables as
/// another list.
pub open spec fn is_set_of(set: Seq<Seq<char>>, names: Seq<Seq<char>>) -> bool {
    &&& set.no_duplicates()
    &&& forall|name: Seq<char>| set.contains(name) <==> names.contains(name)
}

/// Whether a list of texts holds a name.
pub fn holds_name(names: &Vec<String>, name: &String) -> (found: bool)
    ensures
        found == names.deep_view().contains(name@),
{
    let mut i: usize = 0;
    while i < names.len()
        invariant
            i <= names@.len(),
            forall|j: int| 0 <= j < i ==> (#[trigger] names.deep_view()[j]) != name@,
        decreases names@.len() - i,
    {
        if names[i] == *name {
            assert(names.deep_view()[i as int] == name@);
            return true;
        }
        i += 1;
    }
    false
}

/// Adds to a set of names those of a list that it does not hold yet.
fn add_names(set: &mut Vec<String>, names: &Vec<String>, Ghost(seen): Ghost<Seq<Seq<char>>>)
    requires
        is_set_of(old(set).deep_view(), seen),
    ensures
        is_set_of(final(set).deep_view(), seen + names.deep_view()),
{
    let ghost listed = names.deep_view();
    let mut i: usize = 0;
    assert(seen + listed.take(0) =~= seen);
    while i < names.len()
        invariant
            i <= names@.len(),
            listed == names.deep_view(),
            is_set_of(set.deep_view(), seen + listed.take(i as int)),
        decreases names@.len() - i,
    {
        let ghost before = set.deep_view();
        let ghost so_far = seen + listed.take(i as int);
        let ghost next = seen + listed.take(i as int + 1);
        proof {
            assert(next =~= so_far.push(listed[i as int]));
        }
        if !holds_name(set, &names[i]) {
            set.push(names[i].clone());
            proof {
                let after = set.deep_view();
                assert(after =~= before.push(listed[i as int]));
                assert forall|name: Seq<char>| after.contains(name) <==> next.contains(
                    name,
                ) by {
                    if after.contains(name) {
                        let w = choose|w: int| 0 <= w < after.len() && after[w] == name;
                        if w < before.len() {
                            assert(before.contains(name));
                            let v = choose|v: int| 0 <= v < so_far.len() && so_far[v] == name;
                            assert(next[v] == name);
                        } else {
                            assert(next[next.len() - 1] == name);
                        }
                    }
                    if next.contains(name) {
                        let w = choose|w: int| 0 <= w < next.len() && next[w] == name;
                        if w < so_far.len() {
                            assert(so_far[w] == name);
                            assert(so_far.contains(name));
                            let v = choose|v: int| 0 <= v < before.len() && before[v] == name;
                            assert(after[v] == name);
                        } else {
                            assert(after[after.len() - 1] == name);
                        }
                    }
                }
            }
        } else {
            proof {
                assert forall|name: Seq<char>| before.contains(name) <==> next.contains(
                    name,
                ) by {
                    if before.contains(name) {
                        let v = choose|v: int| 0 <= v < so_far.len() && so_far[v] == name;
                        assert(next[v] == name);
                    }
                    if next.contains(name) {
                        let w = choose|w: int| 0 <= w < next.len() && next[w] == name;
                        if w < so_far.len() {
                            assert(so_far[w] == name);
                            assert(so_far.contains(name));
                        }
                    }
                }
            }
        }
        i += 1;
    }
    assert(listed.take(i as int) =~= listed);
}

/// The place of the first failure among the entries, or their number if
/// none failed.
pub open spec fn first_failure(entries: Seq<WalkEntryView>) -> int
    decreases entries.len(),
{
    if entries.len() == 0 {
        0
    } else {
        let before = first_failure(entries.drop_last());
        if before < entries.len() - 1 {
            before
        } else if is_failure(entries.last()) {
            entries.len() - 1
        } else {
            entries.len() as int
        }
    }
}

/// Finds the variables that the files of a walk through a path name. The
/// walk is given by what it met, in order. The first failure of the walk or
/// of reading ends it, and nothing is returned but that failure. Else every
/// variable is returned once. Where the engine does not accept the pattern
/// of a placeholder, that is the failure.
pub fn find_variables_in_path(entries: &Vec<WalkEntry>) -> (found: Result<Vec<String>, PipelineError>)
    ensures
        match found {
            Ok(set) => {
                &&& first_failure(entries.deep_view()) == entries@.len()
                &&& all_names(entries.deep_view()) matches Some(names)
                &&& is_set_of(set.deep_view(), names)
            },
            Err(e) => {
                if e.kind == ErrorKind::InvalidPattern {
                    &&& e@ == pattern_failure()
                    &&& exists|n: int|
                        0 <= n <= entries@.len() && all_names(
                            #[trigger] entries.deep_view().take(n),
                        ) is None
                } else {
                    let at = first_failure(entries.deep_view());
                    &&& at < entries@.len()
                    &&& failure_of(entries.deep_view()[at]) == Some(e@)
                    &&& all_names(entries.deep_view().take(at)) is Some
                }
            },
        },
{
    let ghost all = entries.deep_view();
    let mut set: Vec<String> = Vec::new();
    let ghost mut seen: Seq<Seq<char>> = Seq::empty();
    let mut i: usize = 0;
    assert(all.take(0) =~= Seq::empty());
    while i < entries.len()
        invariant
            i <= entries@.len(),
            all == entries.deep_view(),
            first_failure(all.take(i as int)) == i,
            all_names(all.take(i as int)) == Some(seen),
            is_set_of(set.deep_view(), seen),
        decreases entries@.len() - i,
    {
        proof {
            let longer = all.take(i as int + 1);
            assert(longer.drop_last() =~= all.take(i as int));
            assert(longer.last() == all[i as int]);
        }
        match &entries[i] {
            WalkEntry::Directory => {},
            WalkEntry::File(text) => {
                match find_vars_in_text(text.as_str()) {
                    Some(names) => {
                        add_names(&mut set, &names, Ghost(seen));
                        proof {
                            seen = seen + names.deep_view();
                        }
                    },
                    None => {
                        assert(all_names(all.take(i as int + 1)) is None);
                        return Err(
                            PipelineError::new(
                                ErrorKind::InvalidPattern,
                                Phase::Variables,
                                JINJA_VAR_REGEX,
                            ),
                        );
                    },
                }
            },
            WalkEntry::WalkFailed(said) => {
                proof {
                    lemma_first_failure_found(all, i as int);
                }
                return Err(
                    PipelineError::new(ErrorKind::WalkError, Phase::Variables, said.as_str()),
                );
            },
            WalkEntry::ReadFailed(said) => {
                proof {
                    lemma_first_failure_found(all, i as int);
                }
                return Err(PipelineError::new(ErrorKind::IoError, Phase::Variables, said.as_str()));
            },
        }
        i += 1;
    }
    assert(all.take(i as int) =~= all);
    Ok(set)
}

/// Where the first `n` entries hold no failure and the next one is a
/// failure, it is the first failure of the whole list.
pub proof fn lemma_first_failure_found(entries: Seq<WalkEntryView>, n: int)
    requires
        0 <= n < entries.len(),
        first_failure(entries.take(n)) == n,
        is_failure(entries[n]),
    ensures
        first_failure(entries) == n,
{
    lemma_first_failure_stays(entries, n, entries.len() as int);
    assert(entries.take(entries.len() as int) =~= entries);
}

/// A failure at `n`, with none before it, is the first failure of every
/// longer part of the list.
pub proof fn lemma_first_failure_stays(entries: Seq<WalkEntryView>, n: int, m: int)
    requires
        0 <= n < m <= entries.len(),
        first_failure(entries.take(n)) == n,
        is_failure(entries[n]),
    ensures
        first_failure(entries.take(m)) == n,
    decreases m - n,
{
    let part = entries.take(m);
    assert(part.drop_last() =~= entries.take(m - 1));
    assert(part.last() == entries[m - 1]);
    if m - 1 > n {
        lemma_first_failure_stays(entries, n, m - 1);
    }
}

} // verus!
