//! What the theme loader lists: the saved themes whose name contains the
//! search text, narrowed by the built-in / saved filter.

use vstd::prelude::*;
use vstd::string::StrSliceExecFns;
use crate::text::{chars_of, views};

verus! {

/// Which themes the loader lists.
#[derive(Debug, Clone, Copy, PartialEq, Eq, Structural)]
pub enum ThemeFilter {
    All,
    Builtin,
    Saved,
}

/// `s` contains `q` as a contiguous piece (`str::contains`).
pub open spec fn has_sub(s: Seq<char>, q: Seq<char>) -> bool {
    exists|i: int| 0 <= i && i + q.len() <= s.len() && #[trigger] s.subrange(i, i + q.len()) == q
}

/// The names, in order, that contain `query`.
pub open spec fn matching(names: Seq<Seq<char>>, query: Seq<char>) -> Seq<Seq<char>>
    decreases names.len(),
{
    if names.len() == 0 {
        Seq::empty()
    } else {
        let r = matching(names.drop_last(), query);
        if has_sub(names.last(), query) {
            r.push(names.last())
        } else {
            r
        }
    }
}

/// The themes the loader shows. Every listed theme is a saved one (no
/// built-in themes come with the library), so the built-in filter shows none.
pub open spec fn visible(all: Seq<Seq<char>>, filter: ThemeFilter, query: Seq<char>) -> Seq<Seq<char>> {
    if filter == ThemeFilter::Builtin {
        Seq::empty()
    } else {
        matching(all, query)
    }
}

/// The listing is never longer than the themes it is drawn from.
pub proof fn lemma_visible_len(all: Seq<Seq<char>>, filter: ThemeFilter, query: Seq<char>)
    ensures
        visible(all, filter, query).len() <= all.len(),
    decreases all.len(),
{
    if all.len() > 0 {
        lemma_visible_len(all.drop_last(), filter, query);
    }
}

fn matches_at(s: &Vec<char>, q: &Vec<char>, i: usize) -> (res: bool)
    requires
        i + q.len() <= s.len(),
    ensures
        res == (s@.subrange(i as int, i + q@.len()) == q@),
{
    let mut j: usize = 0;
    while j < q.len()
        invariant
            i + q.len() <= s.len(),
            j <= q@.len(),
            forall|k: int| 0 <= k < j ==> s@[i + k] == q@[k],
        decreases q@.len() - j,
    {
        if s[i + j] != q[j] {
            assert(s@.subrange(i as int, i + q@.len())[j as int] != q@[j as int]);
            return false;
        }
        j = j + 1;
    }
    assert(s@.subrange(i as int, i + q@.len()) =~= q@);
    true
}

/// Whether `s` contains `q`.
pub fn str_contains(s: &str, q: &str) -> (res: bool)
    ensures
        res == has_sub(s@, q@),
{
    let sc = chars_of(s);
    let qc = chars_of(q);
    if qc.len() > sc.len() {
        return false;
    }
    let end = sc.len() - qc.len();
    let mut i: usize = 0;
    loop
        invariant
            sc@ == s@,
            qc@ == q@,
            end == sc.len() - qc.len(),
            i <= end,
            forall|k: int| 0 <= k < i ==> #[trigger] s@.subrange(k, k + q@.len()) != q@,
        decreases end - i,
    {
        if matches_at(&sc, &qc, i) {
            return true;
        }
        if i == end {
            return false;
        }
        i = i + 1;
    }
}

/// The themes of `all` to list under `filter` and `query`.
pub fn visible_themes(all: &Vec<String>, filter: ThemeFilter, query: &str) -> (res: Vec<String>)
    ensures
        views(res@) == visible(views(all@), filter, query@),
{
    let mut res: Vec<String> = Vec::new();
    if filter == ThemeFilter::Builtin {
        assert(views(res@) =~= Seq::<Seq<char>>::empty());
        return res;
    }
    let ghost names = views(all@);
    let mut i: usize = 0;
    while i < all.len()
        invariant
            names == views(all@),
            i <= all@.len(),
            views(res@) == matching(names.take(i as int), query@),
        decreases all@.len() - i,
    {
        assert(names.take(i + 1).drop_last() =~= names.take(i as int));
        assert(names.take(i + 1).last() == all@[i as int]@);
        if str_contains(all[i].as_str(), query) {
            res.push(String::from_str(all[i].as_str()));
            assert(views(res@) =~= matching(names.take(i as int), query@).push(all@[i as int]@));
        }
        i = i + 1;
    }
    assert(names.take(all@.len() as int) =~= names);
    res
}

} // verus!
