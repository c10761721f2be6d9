//! Finding a preview element by typing part of its name: the typed
//! characters must appear in the element's label in the same order, not
//! necessarily next to each other, ignoring ASCII case.

use vstd::prelude::*;
use crate::text::{chars_of, char_to_lower, to_lower};
use crate::ui::state::{PreviewElement, vertical_order};

verus! {

/// `s` with ASCII upper-case letters lowered.
pub open spec fn lowered(s: Seq<char>) -> Seq<char> {
    s.map_values(|c: char| to_lower(c))
}

/// The characters of `q` appear in `t` in order.
pub open spec fn is_subsequence(q: Seq<char>, t: Seq<char>) -> bool
    decreases t.len(),
{
    if q.len() == 0 {
        true
    } else if t.len() == 0 {
        false
    } else if q[0] == t[0] {
        is_subsequence(q.drop_first(), t.drop_first())
    } else {
        is_subsequence(q, t.drop_first())
    }
}

/// `e`'s label matches the typed `query`.
pub open spec fn element_matches(query: Seq<char>, e: PreviewElement) -> bool {
    is_subsequence(lowered(query), lowered(e.spec_label()))
}

/// The first element of `es` whose label matches `query`.
pub open spec fn first_match_in(query: Seq<char>, es: Seq<PreviewElement>) -> Option<PreviewElement>
    decreases es.len(),
{
    if es.len() == 0 {
        None
    } else if element_matches(query, es[0]) {
        Some(es[0])
    } else {
        first_match_in(query, es.drop_first())
    }
}

/// The element a search for `query` jumps to: the first match from the top
/// of the screen to the bottom.
pub open spec fn first_match(query: Seq<char>) -> Option<PreviewElement> {
    first_match_in(query, vertical_order())
}

fn lower_chars(s: &str) -> (res: Vec<char>)
    ensures
        res@ == lowered(s@),
{
    let cs = chars_of(s);
    let mut out: Vec<char> = Vec::new();
    let mut i: usize = 0;
    while i < cs.len()
        invariant
            i <= cs@.len(),
            cs@ == s@,
            out@ == lowered(cs@.take(i as int)),
        decreases cs@.len() - i,
    {
        out.push(char_to_lower(cs[i]));
        assert(lowered(cs@.take(i + 1)) =~= lowered(cs@.take(i as int)).push(to_lower(cs@[i as int])));
        i = i + 1;
    }
    assert(cs@.take(cs@.len() as int) =~= cs@);
    out
}

fn subsequence(q: &Vec<char>, t: &Vec<char>) -> (res: bool)
    ensures
        res == is_subsequence(q@, t@),
{
    let mut i: usize = 0;
    let mut j: usize = 0;
    assert(q@.skip(0) =~= q@);
    assert(t@.skip(0) =~= t@);
    while i < q.len() && j < t.len()
        invariant
            i <= q@.len(),
            j <= t@.len(),
            is_subsequence(q@.skip(i as int), t@.skip(j as int)) == is_subsequence(q@, t@),
        decreases t@.len() - j,
    {
        assert(q@.skip(i as int).drop_first() =~= q@.skip(i + 1));
        assert(t@.skip(j as int).drop_first() =~= t@.skip(j + 1));
        if q[i] == t[j] {
            i = i + 1;
        }
        j = j + 1;
    }
    i == q.len()
}

/// The element a search for `query` jumps to, if any matches.
pub fn find_element(query: &str) -> (res: Option<PreviewElement>)
    ensures
        res == first_match(query@),
{
    let q = lower_chars(query);
    let order = PreviewElement::vertical_order();
    let mut k: usize = 0;
    assert(order@.skip(0) =~= order@);
    while k < order.len()
        invariant
            k <= order@.len(),
            order@ == vertical_order(),
            q@ == lowered(query@),
            first_match_in(query@, order@.skip(k as int)) == first_match(query@),
        decreases order@.len() - k,
    {
        let e = order[k];
        let label = lower_chars(e.label());
        assert(order@.skip(k as int).drop_first() =~= order@.skip(k + 1));
        if subsequence(&q, &label) {
            return Some(e);
        }
        k = k + 1;
    }
    None
}

} // verus!
