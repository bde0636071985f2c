//! Sorting a list of strings into the deterministic lexicographic order the
//! directory listing and the metadata field listing present.

use crate::text::lemma_lex_le_total;
use crate::text::lemma_lex_le_trans;
use crate::text::lex_le;
use crate::text::str_le;
use vstd::prelude::*;
use vstd::seq_lib::to_multiset_insert;
use vstd::seq_lib::to_multiset_remove;

verus! {

/// The views of a list of strings.
pub open spec fn views_of(v: Seq<String>) -> Seq<Seq<char>> {
    v.map_values(|s: String| s@)
}

/// Whether a list of strings is in lexicographic order.
pub open spec fn sorted_lex(v: Seq<Seq<char>>) -> bool {
    forall|k: int, l: int| 0 <= k < l < v.len() ==> lex_le(v[k], v[l])
}

/// Compares two strings in the lexicographic order on their characters.
pub fn string_le(a: &String, b: &String) -> (r: bool)
    ensures
        r == lex_le(a@, b@),
{
    str_le(a.as_str(), b.as_str())
}

/// Sorts a list of strings into lexicographic order. The result holds the
/// same strings, each as often as before, in lexicographic order; since the
/// order relates every pair of strings, that determines the result in full.
pub fn sort_strings(v: &mut Vec<String>)
    ensures
        final(v)@.len() == old(v)@.len(),
        sorted_lex(views_of(final(v)@)),
        views_of(final(v)@).to_multiset() == views_of(old(v)@).to_multiset(),
{
    let n = v.len();
    if n == 0 {
        return ;
    }
    let mut i: usize = 1;
    while i < n
        invariant
            1 <= i <= n,
            v@.len() == n,
            forall|k: int, l: int| 0 <= k < l < i ==> lex_le(v@[k]@, v@[l]@),
            views_of(v@).to_multiset() == views_of(old(v)@).to_multiset(),
        decreases n - i,
    {
        let mut p: usize = 0;
        while p < i && string_le(&v[p], &v[i])
            invariant
                0 <= p <= i < n,
                v@.len() == n,
                forall|k: int| 0 <= k < p ==> lex_le(v@[k]@, v@[i as int]@),
            decreases i - p,
        {
            p = p + 1;
        }
        let ghost prev = v@;
        let ghost x = v@[i as int]@;
        proof {
            // every element standing at p..i is at least x, by totality
            // of the order at p and transitivity along the sorted prefix
            if p < i {
                lemma_lex_le_total(prev[p as int]@, x);
                assert forall|k: int| p <= k < i implies lex_le(x, prev[k]@) by {
                    if k > p {
                        lemma_lex_le_trans(x, prev[p as int]@, prev[k]@);
                    }
                }
            }
        }
        let moved = v.remove(i);
        v.insert(p, moved);
        proof {
            assert(v@ =~= prev.remove(i as int).insert(p as int, prev[i as int]));
            assert(views_of(v@).to_multiset() == views_of(prev).to_multiset()) by {
                assert(views_of(v@) =~= views_of(prev).remove(i as int).insert(p as int, x));
                to_multiset_remove(views_of(prev), i as int);
                to_multiset_insert(views_of(prev).remove(i as int), p as int, x);
                vstd::seq_lib::to_multiset_contains(views_of(prev), x);
                assert(views_of(prev).contains(x));
                assert(views_of(prev).remove(i as int).insert(p as int, x).to_multiset()
                    =~= views_of(prev).to_multiset());
            }
            assert forall|k: int, l: int| 0 <= k < l < i + 1 implies lex_le(
                v@[k]@,
                v@[l]@,
            ) by {
                assert(v@[k]@ == (if k < p { prev[k]@ } else if k == p { x } else { prev[k - 1]@ }));
                assert(v@[l]@ == (if l < p { prev[l]@ } else if l == p { x } else { prev[l - 1]@ }));
            }
        }
        i = i + 1;
    }
}

} // verus!
