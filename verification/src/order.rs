//! Lexicographic (codepoint) order on names, and sorting of name lists.
//!
//! The export section of the emitted module lists names in ascending
//! codepoint order; this module defines that order, proves that it is a
//! total ordering, and provides a verified sort.

use vstd::prelude::*;

verus! {

use vstd::relations::{sorted_by, total_ordering};
use vstd::seq_lib::lemma_sorted_unique;
use vstd::seq_lib::to_multiset_insert;
use vstd::seq_lib::to_multiset_build;
use vstd::seq_lib::group_to_multiset_ensures;

/// Strict order on single characters, by codepoint.
pub open spec fn char_lt(a: char, b: char) -> bool {
    a < b
}

/// Strict lexicographic order on names: a proper prefix comes first,
/// otherwise the first differing character decides.
pub open spec fn lex_lt(a: Seq<char>, b: Seq<char>) -> bool
    decreases a.len(),
{
    if b.len() == 0 {
        false
    } else if a.len() == 0 {
        true
    } else if char_lt(a.first(), b.first()) {
        true
    } else if a.first() == b.first() {
        lex_lt(a.drop_first(), b.drop_first())
    } else {
        false
    }
}

/// Reflexive closure of `lex_lt`.
pub open spec fn lex_le(a: Seq<char>, b: Seq<char>) -> bool {
    lex_lt(a, b) || a == b
}

/// `lex_le` as a relation value, for use with sorting.
pub open spec fn lex_le_fn() -> spec_fn(Seq<char>, Seq<char>) -> bool {
    |a: Seq<char>, b: Seq<char>| lex_le(a, b)
}

/// `lex_lt` never holds in both directions at once.
pub proof fn lemma_lex_lt_asymmetric(a: Seq<char>, b: Seq<char>)
    ensures
        !(lex_lt(a, b) && lex_lt(b, a)),
    decreases a.len(),
{
    if a.len() > 0 && b.len() > 0 && a.first() == b.first() {
        lemma_lex_lt_asymmetric(a.drop_first(), b.drop_first());
    }
}

/// Two distinct names are ordered one way or the other.
pub proof fn lemma_lex_lt_connected(a: Seq<char>, b: Seq<char>)
    ensures
        a != b ==> lex_lt(a, b) || lex_lt(b, a),
    decreases a.len(),
{
    if a.len() == 0 && b.len() == 0 {
        assert(a =~= b);
    } else if a.len() > 0 && b.len() > 0 {
        if a.first() == b.first() {
            lemma_lex_lt_connected(a.drop_first(), b.drop_first());
            if a.drop_first() == b.drop_first() {
                assert(a.len() == b.len());
                assert forall|k: int| 0 <= k < a.len() implies a[k] == b[k] by {
                    if k > 0 {
                        assert(a.drop_first()[k - 1] == b.drop_first()[k - 1]);
                    }
                }
                assert(a =~= b);
            }
        }
    }
}

/// `lex_lt` is transitive.
pub proof fn lemma_lex_lt_transitive(a: Seq<char>, b: Seq<char>, c: Seq<char>)
    ensures
        lex_lt(a, b) && lex_lt(b, c) ==> lex_lt(a, c),
    decreases a.len(),
{
    if a.len() > 0 && b.len() > 0 && c.len() > 0 {
        lemma_lex_lt_transitive(a.drop_first(), b.drop_first(), c.drop_first());
    }
}

/// `lex_le` is a total ordering, as vstd's sorting library understands it.
pub proof fn lemma_lex_le_total_ordering()
    ensures
        total_ordering(lex_le_fn()),
{
    let leq = lex_le_fn();
    assert forall|a: Seq<char>, b: Seq<char>| #[trigger] leq(a, b) && leq(b, a) implies a == b by {
        lemma_lex_lt_asymmetric(a, b);
    }
    assert forall|a: Seq<char>, b: Seq<char>, c: Seq<char>|
        #[trigger] leq(a, b) && #[trigger] leq(b, c) implies leq(a, c) by {
        lemma_lex_lt_transitive(a, b, c);
    }
    assert forall|a: Seq<char>, b: Seq<char>| !(#[trigger] leq(a, b)) implies leq(b, a) by {
        lemma_lex_lt_connected(a, b);
    }
}

/// The ascending order of a list of names.
pub open spec fn sorted_names(s: Seq<Seq<char>>) -> Seq<Seq<char>> {
    s.sort_by(lex_le_fn())
}

/// The character sequences of a list of strings.
pub open spec fn views_of(s: Seq<String>) -> Seq<Seq<char>> {
    s.map_values(|x: String| x@)
}

/// What sorting a list of names guarantees: same length, same multiset of
/// names, ascending order.
pub proof fn lemma_sorted_names_ensures(s: Seq<Seq<char>>)
    ensures
        sorted_names(s).to_multiset() == s.to_multiset(),
        sorted_by(sorted_names(s), lex_le_fn()),
        sorted_names(s).len() == s.len(),
{
    broadcast use group_to_multiset_ensures;

    lemma_lex_le_total_ordering();
    s.lemma_sort_by_ensures(lex_le_fn());
    assert(sorted_names(s).to_multiset() =~= s.to_multiset());
    assert(sorted_names(s).len() == sorted_names(s).to_multiset().len());
    assert(s.len() == s.to_multiset().len());
}

/// Every sorted name is one of the input names.
pub proof fn lemma_sorted_names_contained(s: Seq<Seq<char>>)
    ensures
        forall|k: int|
            0 <= k < sorted_names(s).len() ==> s.contains(#[trigger] sorted_names(s)[k]),
{
    lemma_lex_le_total_ordering();
    s.lemma_sort_by_ensures(lex_le_fn());
    assert forall|k: int| 0 <= k < sorted_names(s).len() implies s.contains(
        sorted_names(s)[k],
    ) by {
        assert(sorted_names(s).contains(sorted_names(s)[k]));
    }
}

/// Whether `lhs` comes strictly before `rhs` in codepoint order.
pub fn str_lt(lhs: &str, rhs: &str) -> (r: bool)
    ensures
        r == lex_lt(lhs@, rhs@),
{
    let la = lhs.unicode_len();
    let lb = rhs.unicode_len();
    let mut i: usize = 0;
    proof {
        assert(lhs@.skip(0) =~= lhs@);
        assert(rhs@.skip(0) =~= rhs@);
    }
    while i < la && i < lb
        invariant
            i <= la,
            i <= lb,
            la == lhs@.len(),
            lb == rhs@.len(),
            lex_lt(lhs@, rhs@) == lex_lt(lhs@.skip(i as int), rhs@.skip(i as int)),
        decreases la - i,
    {
        let ca = lhs.get_char(i);
        let cb = rhs.get_char(i);
        proof {
            assert(lhs@.skip(i as int).first() == lhs@[i as int]);
            assert(rhs@.skip(i as int).first() == rhs@[i as int]);
            assert(lhs@.skip(i as int).drop_first() =~= lhs@.skip(i as int + 1));
            assert(rhs@.skip(i as int).drop_first() =~= rhs@.skip(i as int + 1));
        }
        if ca < cb {
            return true;
        }
        if cb < ca {
            proof {
                if lex_lt(lhs@.skip(i as int), rhs@.skip(i as int)) {
                    assert(false);
                }
            }
            return false;
        }
        assert(ca == cb);
        i = i + 1;
    }
    proof {
        if i == lb {
            assert(rhs@.skip(i as int).len() == 0);
        } else {
            assert(lhs@.skip(i as int).len() == 0);
            assert(rhs@.skip(i as int).len() > 0);
        }
    }
    la < lb
}

/// The position at which `x` is inserted into the already sorted `r`:
/// after every entry not above it, before the first entry above it.
fn insert_position(r: &Vec<String>, x: &str) -> (j: usize)
    ensures
        j <= r@.len(),
        forall|k: int| 0 <= k < j ==> !lex_lt(x@, r@[k]@),
        j < r@.len() ==> lex_lt(x@, r@[j as int]@),
{
    let mut j: usize = 0;
    while j < r.len()
        invariant
            j <= r@.len(),
            forall|k: int| 0 <= k < j ==> !lex_lt(x@, r@[k]@),
        decreases r@.len() - j,
    {
        if str_lt(x, r[j].as_str()) {
            return j;
        }
        j = j + 1;
    }
    j
}

/// Sorts a list of names into ascending codepoint order.
pub fn sort_names(v: &Vec<String>) -> (r: Vec<String>)
    ensures
        views_of(r@) == sorted_names(views_of(v@)),
{
    broadcast use group_to_multiset_ensures;
    broadcast use to_multiset_insert;

    let mut r: Vec<String> = Vec::new();
    let mut i: usize = 0;
    proof {
        assert(views_of(r@) =~= Seq::<Seq<char>>::empty());
        assert(views_of(v@.take(0)) =~= Seq::<Seq<char>>::empty());
        assert(views_of(r@).to_multiset() =~= views_of(v@.take(0)).to_multiset());
    }
    while i < v.len()
        invariant
            i <= v@.len(),
            sorted_by(views_of(r@), lex_le_fn()),
            views_of(r@).to_multiset() == views_of(v@.take(i as int)).to_multiset(),
        decreases v@.len() - i,
    {
        let ghost old_r = r@;
        let x = v[i].clone();
        let j = insert_position(&r, x.as_str());
        r.insert(j, x);
        proof {
            assert(views_of(r@) =~= views_of(old_r).insert(j as int, x@));
            views_of(old_r).insert_ensures(j as int, x@);
            assert forall|p: int, q: int|
                0 <= p < q < views_of(r@).len() implies #[trigger] lex_le_fn()(
                views_of(r@)[p],
                views_of(r@)[q],
            ) by {
                let s = views_of(r@);
                if q < j {
                    assert(lex_le_fn()(views_of(old_r)[p], views_of(old_r)[q]));
                } else if p > j {
                    assert(lex_le_fn()(views_of(old_r)[p - 1], views_of(old_r)[q - 1]));
                } else if p < j && q == j {
                    lemma_lex_lt_connected(x@, views_of(old_r)[p]);
                } else if p == j && q > j {
                    assert(lex_lt(x@, views_of(old_r)[j as int]));
                    if q - 1 > j {
                        assert(lex_le_fn()(views_of(old_r)[j as int], views_of(old_r)[q - 1]));
                    }
                    lemma_lex_lt_transitive(x@, views_of(old_r)[j as int], views_of(old_r)[q - 1]);
                } else if p < j && q > j {
                    lemma_lex_lt_connected(x@, views_of(old_r)[p]);
                    if q - 1 > p {
                        assert(lex_le_fn()(views_of(old_r)[p], views_of(old_r)[q - 1]));
                    }
                }
            }
            assert(x@ == v@[i as int]@);
            to_multiset_insert(views_of(old_r), j as int, x@);
            assert(views_of(v@.take(i + 1)) =~= views_of(v@.take(i as int)).push(x@));
            to_multiset_build(views_of(v@.take(i as int)), x@);
            assert(views_of(r@).to_multiset() =~= views_of(v@.take(i + 1)).to_multiset());
        }
        i = i + 1;
    }
    proof {
        assert(v@.take(i as int) =~= v@);
        lemma_sorted_names_ensures(views_of(v@));
        lemma_lex_le_total_ordering();
        lemma_sorted_unique(views_of(r@), sorted_names(views_of(v@)), lex_le_fn());
    }
    r
}

} // verus!
