//! Collapsing one cell of a tile grid: the choice of a tile value that the
//! neighbouring cells allow.

use std::collections::{HashMap, HashSet};
use rand::seq::IteratorRandom;
use vstd::prelude::*;

verus! {

broadcast use vstd::std_specs::hash::group_hash_axioms;

/// Whether the rules allow `value` beside every one of `neighbors`: it is a
/// tile of the rule book, and each neighbour that has a rule lists it.
pub open spec fn allowed(rules: Map<u16, HashSet<u16>>, neighbors: Seq<u16>, value: u16) -> bool {
    &&& rules.contains_key(value)
    &&& forall|i: int|
        0 <= i < neighbors.len() && rules.contains_key(#[trigger] neighbors[i])
            ==> rules[neighbors[i]]@.contains(value)
}

/// How often `value` occurs among the first `n` items of `items`.
pub open spec fn occurrences(items: Seq<u16>, value: u16, n: nat) -> nat
    recommends
        n <= items.len(),
    decreases n,
{
    if n == 0 {
        0
    } else if items[n - 1] == value {
        occurrences(items, value, (n - 1) as nat) + 1
    } else {
        occurrences(items, value, (n - 1) as nat)
    }
}

/// How often `value` occurs in `items`.
pub open spec fn count(items: Seq<u16>, value: u16) -> nat {
    occurrences(items, value, items.len())
}

/// Whether `value` is the most frequent item of `items`: none occurs more
/// often, and every item that stands before its first occurrence occurs
/// less often. Of an empty list the most frequent item is zero.
pub open spec fn is_most_frequent(items: Seq<u16>, value: u16) -> bool {
    if items.len() == 0 {
        value == 0
    } else {
        exists|first: int|
            {
                &&& 0 <= first < items.len()
                &&& #[trigger] items[first] == value
                &&& forall|j: int|
                    0 <= j < items.len() ==> count(items, #[trigger] items[j]) <= count(
                        items,
                        value,
                    )
                &&& forall|j: int|
                    0 <= j < first ==> count(items, #[trigger] items[j]) < count(items, value)
            }
    }
}

/// Whether every neighbour that has a rule lists `value`.
pub open spec fn passes(rules: Map<u16, HashSet<u16>>, neighbors: Seq<u16>, value: u16) -> bool {
    forall|i: int|
        0 <= i < neighbors.len() && rules.contains_key(#[trigger] neighbors[i])
            ==> rules[neighbors[i]]@.contains(value)
}

/// Tests `value` against the rule of each neighbour that has one.
pub fn passes_all(rules: &HashMap<u16, HashSet<u16>>, neighbors: &Vec<u16>, value: u16) -> (r: bool)
    ensures
        r == passes(rules@, neighbors@, value),
{
    let n: usize = neighbors.len();
    let mut i: usize = 0;
    while i < n
        invariant
            i <= n,
            n == neighbors@.len(),
            forall|j: int|
                0 <= j < i && rules@.contains_key(#[trigger] neighbors@[j])
                    ==> rules@[neighbors@[j]]@.contains(value),
        decreases n - i,
    {
        if let Some(possibilities) = rules.get(&neighbors[i]) {
            if !possibilities.contains(&value) {
                return false;
            }
        }
        i += 1;
    }
    true
}

/// The set of the tile values that the rules allow beside every neighbour.
pub fn compatible(rules: &HashMap<u16, HashSet<u16>>, neighbors: &Vec<u16>) -> (found: HashSet<
    u16,
>)
    ensures
        forall|v: u16| found@.contains(v) <==> allowed(rules@, neighbors@, v),
        found@.finite(),
{
    let mut found: HashSet<u16> = HashSet::new();
    for key in iter: rules.keys()
        invariant
            iter.seq().unref().to_set() == rules@.dom(),
            found@.finite(),
            forall|v: u16| found@.contains(v) ==> allowed(rules@, neighbors@, v),
            forall|j: int|
                0 <= j < iter.index() && passes(rules@, neighbors@, *#[trigger] iter.seq()[j])
                    ==> found@.contains(*iter.seq()[j]),
            iter.index() == iter.seq().len() ==> forall|v: u16|
                allowed(rules@, neighbors@, v) ==> found@.contains(v),
    {
        proof {
            let at = iter.index() as int;
            assert(iter.seq().unref()[at] == *key);
            assert(iter.seq().unref().to_set().contains(*key));
        }
        if passes_all(rules, neighbors, *key) {
            found.insert(*key);
        }
        proof {
            assert forall|v: u16|
                iter.index() + 1 == iter.seq().len() && allowed(
                    rules@,
                    neighbors@,
                    v,
                ) implies found@.contains(v) by {
                assert(iter.seq().unref().to_set().contains(v));
                let j = choose|j: int|
                    0 <= j < iter.seq().unref().len() && iter.seq().unref()[j] == v;
                assert(*iter.seq()[j] == v);
            }
        }
    }
    found
}

/// Counts the occurrences of `value` in `items`.
pub fn count_of(items: &Vec<u16>, value: u16) -> (r: usize)
    ensures
        r == count(items@, value),
{
    let n: usize = items.len();
    let mut r: usize = 0;
    let mut i: usize = 0;
    while i < n
        invariant
            i <= n,
            n == items@.len(),
            r == occurrences(items@, value, i as nat),
            r <= i,
        decreases n - i,
    {
        if items[i] == value {
            r += 1;
        }
        i += 1;
    }
    r
}

/// The most frequent item of `items`; among several, the one that occurs
/// first; zero for an empty list.
pub fn most_frequent(items: &Vec<u16>) -> (r: u16)
    ensures
        is_most_frequent(items@, r),
{
    let n: usize = items.len();
    let mut max_count: usize = 0;
    let mut max_value: u16 = 0;
    let ghost mut first: int = 0;
    let mut i: usize = 0;
    while i < n
        invariant
            i <= n,
            n == items@.len(),
            i == 0 ==> max_count == 0 && max_value == 0,
            i > 0 ==> 0 <= first < i && items@[first] == max_value && max_count == count(
                items@,
                max_value,
            ),
            forall|j: int| 0 <= j < i ==> count(items@, #[trigger] items@[j]) <= max_count,
            forall|j: int| 0 <= j < first ==> count(items@, #[trigger] items@[j]) < max_count,
        decreases n - i,
    {
        let found: usize = count_of(items, items[i]);
        proof {
            lemma_count_positive(items@, i as int);
        }
        if found > max_count {
            max_value = items[i];
            max_count = found;
            proof {
                first = i as int;
            }
        }
        i += 1;
    }
    max_value
}

/// Draws one of `candidates` at random: `IteratorRandom::choose` of `rand`,
/// on the set's iterator, with the thread-local generator. `rand` documents
/// that it returns `None` if and only if there is nothing to choose from,
/// and otherwise one of the items; which one is left open.
#[verifier::external_body]
fn choose_one(candidates: &HashSet<u16>) -> (r: Option<u16>)
    ensures
        r is None <==> candidates@.len() == 0,
        r is Some ==> candidates@.contains(r->0),
{
    candidates.iter().choose(&mut rand::thread_rng()).copied()
}

/// What a cell collapses to, given the values that its neighbours allow and
/// the value drawn among them: the most frequent neighbour where nothing is
/// allowed, else the drawn value, or zero where nothing was drawn.
pub fn collapse_with(candidates: &HashSet<u16>, neighbors: &Vec<u16>, drawn: Option<u16>) -> (r:
    u16)
    ensures
        candidates@.len() == 0 ==> is_most_frequent(neighbors@, r),
        candidates@.len() > 0 ==> r == (match drawn {
            Some(value) => value,
            None => 0u16,
        }),
{
    if candidates.len() == 0 {
        return most_frequent(neighbors);
    }
    match drawn {
        Some(value) => value,
        None => 0,
    }
}

/// Collapses a cell. A tile value is allowed if it has a rule of its own
/// and every neighbour that has a rule lists it. Where some value is
/// allowed, the result is one of the allowed values, drawn at random; where
/// none is, it is the most frequent neighbour, the earliest among equals,
/// or zero without neighbours.
pub fn collapse_cell(rules: &HashMap<u16, HashSet<u16>>, neighbors: &Vec<u16>) -> (r: u16)
    ensures
        (exists|v: u16| allowed(rules@, neighbors@, v)) ==> allowed(rules@, neighbors@, r),
        (forall|v: u16| !allowed(rules@, neighbors@, v)) ==> is_most_frequent(neighbors@, r),
{
    let candidates: HashSet<u16> = compatible(rules, neighbors);
    let drawn: Option<u16> = if candidates.len() == 0 {
        None
    } else {
        choose_one(&candidates)
    };
    proof {
        if exists|v: u16| allowed(rules@, neighbors@, v) {
            let v = choose|v: u16| allowed(rules@, neighbors@, v);
            assert(candidates@.contains(v));
        }
        if forall|v: u16| !allowed(rules@, neighbors@, v) {
            assert(candidates@ =~= Set::<u16>::empty());
        }
    }
    collapse_with(&candidates, neighbors, drawn)
}

/// An item of a list occurs in it at least once.
pub proof fn lemma_count_positive(items: Seq<u16>, i: int)
    requires
        0 <= i < items.len(),
    ensures
        count(items, items[i]) >= 1,
{
    lemma_occurrences_grow(items, items[i], (i + 1) as nat, items.len());
}

/// The count over a longer prefix is no smaller.
pub proof fn lemma_occurrences_grow(items: Seq<u16>, value: u16, m: nat, n: nat)
    requires
        m <= n,
    ensures
        occurrences(items, value, m) <= occurrences(items, value, n),
    decreases n - m,
{
    if m < n {
        lemma_occurrences_grow(items, value, m, (n - 1) as nat);
    }
}

/// At most one value is the most frequent item of a list.
pub proof fn lemma_most_frequent_unique(items: Seq<u16>, a: u16, b: u16)
    requires
        is_most_frequent(items, a),
        is_most_frequent(items, b),
    ensures
        a == b,
{
    if items.len() > 0 {
        let fa = choose|first: int|
            {
                &&& 0 <= first < items.len()
                &&& #[trigger] items[first] == a
                &&& forall|j: int|
                    0 <= j < items.len() ==> count(items, #[trigger] items[j]) <= count(items, a)
                &&& forall|j: int|
                    0 <= j < first ==> count(items, #[trigger] items[j]) < count(items, a)
            };
        let fb = choose|first: int|
            {
                &&& 0 <= first < items.len()
                &&& #[trigger] items[first] == b
                &&& forall|j: int|
                    0 <= j < items.len() ==> count(items, #[trigger] items[j]) <= count(items, b)
                &&& forall|j: int|
                    0 <= j < first ==> count(items, #[trigger] items[j]) < count(items, b)
            };
        assert(count(items, items[fa]) <= count(items, b));
        assert(count(items, items[fb]) <= count(items, a));
        if fa < fb {
            assert(count(items, items[fa]) < count(items, b));
        } else if fb < fa {
            assert(count(items, items[fb]) < count(items, a));
        }
    }
}

} // verus!
