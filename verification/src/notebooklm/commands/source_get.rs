//! `source_get`: one source of a notebook, found by identifier or title.
use vstd::prelude::*;

use crate::models::Source;
use crate::text::{chars_of, contains_chars, contains_seq, lowercase, to_lowercase};

verus! {

/// How many of `titles` contain `q`.
pub open spec fn partial_count(titles: Seq<Seq<char>>, q: Seq<char>) -> nat
    decreases titles.len(),
{
    if titles.len() == 0 {
        0
    } else {
        partial_count(titles.drop_last(), q) + if contains_seq(titles.last(), q) {
            1nat
        } else {
            0nat
        }
    }
}

/// Index `i` is the first of `keys` equal to `q`.
pub open spec fn first_equal(keys: Seq<Seq<char>>, i: int, q: Seq<char>) -> bool {
    &&& 0 <= i < keys.len()
    &&& keys[i] == q
    &&& forall|j: int| 0 <= j < i ==> #[trigger] keys[j] != q
}

/// The source a query `q` names among sources with identifiers `ids` and titles
/// `titles` (all three compared as given): the first with that identifier, else the
/// first with that title, else the only one whose title contains it.
pub open spec fn picks(ids: Seq<Seq<char>>, titles: Seq<Seq<char>>, q: Seq<char>, r: Option<usize>) -> bool {
    if exists|i: int| 0 <= i < ids.len() && #[trigger] ids[i] == q {
        r matches Some(i) && first_equal(ids, i as int, q)
    } else if exists|i: int| 0 <= i < titles.len() && #[trigger] titles[i] == q {
        r matches Some(i) && first_equal(titles, i as int, q)
    } else if partial_count(titles, q) == 1 {
        r matches Some(i) && 0 <= i < titles.len() && contains_seq(titles[i as int], q)
    } else {
        r is None
    }
}

/// The lower-cased identifiers of `sources`.
pub open spec fn lowered_ids(sources: Seq<Source>) -> Seq<Seq<char>> {
    sources.map_values(|s: Source| lowercase(s.id@))
}

/// The lower-cased titles of `sources`.
pub open spec fn lowered_titles(sources: Seq<Source>) -> Seq<Seq<char>> {
    sources.map_values(|s: Source| lowercase(s.title@))
}

/// The views of `v`.
pub open spec fn string_views(v: Seq<String>) -> Seq<Seq<char>> {
    v.map_values(|s: String| s@)
}

fn same_text(a: &str, b: &str) -> (r: bool)
    ensures
        r == (a@ == b@),
{
    crate::text::str_eq(a, b)
}

/// The index of the source, with identifiers `ids` and titles `titles`, that `query`
/// names, if it names one.
pub fn pick_source(ids: &Vec<String>, titles: &Vec<String>, query: &str) -> (r: Option<usize>)
    requires
        ids.len() == titles.len(),
    ensures
        picks(string_views(ids@), string_views(titles@), query@, r),
{
    let ghost gi = string_views(ids@);
    let ghost gt = string_views(titles@);
    let q = chars_of(query);
    let n = ids.len();
    let mut i: usize = 0;
    while i < n
        invariant
            n == ids.len(),
            n == titles.len(),
            gi == string_views(ids@),
            i <= n,
            forall|j: int| 0 <= j < i ==> #[trigger] gi[j] != query@,
        decreases n - i,
    {
        if same_text(ids[i].as_str(), query) {
            assert(first_equal(gi, i as int, query@));
            return Some(i);
        }
        i = i + 1;
    }
    let mut i: usize = 0;
    while i < n
        invariant
            n == ids.len(),
            n == titles.len(),
            gi == string_views(ids@),
            gt == string_views(titles@),
            i <= n,
            forall|j: int| 0 <= j < n ==> #[trigger] gi[j] != query@,
            forall|j: int| 0 <= j < i ==> #[trigger] gt[j] != query@,
        decreases n - i,
    {
        if same_text(titles[i].as_str(), query) {
            assert(first_equal(gt, i as int, query@));
            return Some(i);
        }
        i = i + 1;
    }
    let mut count: usize = 0;
    let mut found: usize = 0;
    let mut i: usize = 0;
    while i < n
        invariant
            n == ids.len(),
            n == titles.len(),
            gi == string_views(ids@),
            gt == string_views(titles@),
            q@ == query@,
            i <= n,
            forall|j: int| 0 <= j < n ==> #[trigger] gi[j] != query@,
            forall|j: int| 0 <= j < n ==> #[trigger] gt[j] != query@,
            count == partial_count(gt.take(i as int), query@),
            count <= i,
            count > 0 ==> found < i && contains_seq(gt[found as int], query@),
        decreases n - i,
    {
        proof {
            assert(gt.take(i + 1).drop_last() =~= gt.take(i as int));
        }
        let title = chars_of(titles[i].as_str());
        if contains_chars(&title, &q) {
            if count == 0 {
                found = i;
            }
            count = count + 1;
        }
        i = i + 1;
    }
    assert(gt.take(n as int) =~= gt);
    if count == 1 {
        Some(found)
    } else {
        None
    }
}

/// The index of the source of `sources` that `query` names, if it names one: the
/// identifiers, titles and query are compared lower-cased.
pub fn select_source(sources: &Vec<Source>, query: &str) -> (r: Option<usize>)
    ensures
        picks(lowered_ids(sources@), lowered_titles(sources@), lowercase(query@), r),
{
    let mut ids: Vec<String> = Vec::new();
    let mut titles: Vec<String> = Vec::new();
    let n = sources.len();
    let mut i: usize = 0;
    while i < n
        invariant
            n == sources.len(),
            i <= n,
            ids@.len() == i,
            titles@.len() == i,
            forall|j: int| 0 <= j < i ==> (#[trigger] ids@[j])@ == lowercase(sources@[j].id@),
            forall|j: int| 0 <= j < i ==> (#[trigger] titles@[j])@ == lowercase(sources@[j].title@),
        decreases n - i,
    {
        ids.push(to_lowercase(sources[i].id.as_str()));
        titles.push(to_lowercase(sources[i].title.as_str()));
        i = i + 1;
    }
    assert(string_views(ids@) =~= lowered_ids(sources@));
    assert(string_views(titles@) =~= lowered_titles(sources@));
    let q = to_lowercase(query);
    pick_source(&ids, &titles, q.as_str())
}

} // verus!
