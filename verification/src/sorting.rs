//! Ordering names.
//!
//! Names are ordered as strings are: character by character, by code point,
//! a proper prefix before its extensions.

use vstd::prelude::*;
use vstd::std_specs::iter::IteratorSpec;

verus! {

/// Whether `a` comes strictly before `b`.
pub open spec fn lex_lt(a: Seq<char>, b: Seq<char>) -> bool
    decreases a.len(),
{
    if b.len() == 0 {
        false
    } else if a.len() == 0 {
        true
    } else if a[0] != b[0] {
        a[0] < b[0]
    } else {
        lex_lt(a.drop_first(), b.drop_first())
    }
}

/// Whether `names` is in ascending order, equal names allowed.
pub open spec fn ascending(names: Seq<Seq<char>>) -> bool {
    forall|i: int, j: int| 0 <= i < j < names.len() ==> !lex_lt(names[j], names[i])
}

/// Whether `names` is in strictly ascending order, so that no name occurs
/// twice.
pub open spec fn strictly_ascending(names: Seq<Seq<char>>) -> bool {
    forall|i: int, j: int| 0 <= i < j < names.len() ==> lex_lt(names[i], names[j])
}

/// Whether `a` and `b` hold the same names, however often and in whatever
/// order.
pub open spec fn same_members(a: Seq<Seq<char>>, b: Seq<Seq<char>>) -> bool {
    forall|name: Seq<char>| a.contains(name) <==> b.contains(name)
}

/// The names that occur in `names`, each once, in strictly ascending order.
pub open spec fn sorted_members(names: Seq<Seq<char>>) -> Seq<Seq<char>> {
    choose|sorted: Seq<Seq<char>>| strictly_ascending(sorted) && same_members(sorted, names)
}

/// No name comes before itself.
pub proof fn lemma_lex_lt_irreflexive(a: Seq<char>)
    ensures
        !lex_lt(a, a),
    decreases a.len(),
{
    if a.len() > 0 {
        lemma_lex_lt_irreflexive(a.drop_first());
    }
}

/// Of two names, at most one comes before the other.
pub proof fn lemma_lex_lt_asymmetric(a: Seq<char>, b: Seq<char>)
    requires
        lex_lt(a, b),
    ensures
        !lex_lt(b, a),
    decreases a.len(),
{
    if a.len() > 0 && b.len() > 0 && a[0] == b[0] {
        lemma_lex_lt_asymmetric(a.drop_first(), b.drop_first());
    }
}

/// Two names of which neither comes before the other are the same name.
pub proof fn lemma_lex_lt_total(a: Seq<char>, b: Seq<char>)
    requires
        !lex_lt(a, b),
        !lex_lt(b, a),
    ensures
        a == b,
    decreases a.len(),
{
    if a.len() > 0 && b.len() > 0 {
        lemma_lex_lt_total(a.drop_first(), b.drop_first());
        assert(a =~= seq![a[0]] + a.drop_first());
        assert(b =~= seq![b[0]] + b.drop_first());
    } else {
        assert(a =~= b);
    }
}

/// What comes before a name comes before everything that the name does not
/// come after.
pub proof fn lemma_lex_lt_chain(a: Seq<char>, b: Seq<char>, c: Seq<char>)
    requires
        lex_lt(a, b),
        !lex_lt(c, b),
    ensures
        lex_lt(a, c),
    decreases a.len(),
{
    if a.len() > 0 && b.len() > 0 && c.len() > 0 {
        if a[0] == b[0] && b[0] == c[0] {
            lemma_lex_lt_chain(a.drop_first(), b.drop_first(), c.drop_first());
        }
    }
}

/// The order is transitive.
pub proof fn lemma_lex_lt_transitive(a: Seq<char>, b: Seq<char>, c: Seq<char>)
    requires
        lex_lt(a, b),
        lex_lt(b, c),
    ensures
        lex_lt(a, c),
{
    lemma_lex_lt_asymmetric(b, c);
    lemma_lex_lt_chain(a, b, c);
}

/// Past a common prefix, the order of two names is the order of what
/// follows.
proof fn lemma_lex_lt_skips_common_prefix(a: Seq<char>, b: Seq<char>, n: int)
    requires
        0 <= n <= a.len(),
        n <= b.len(),
        a.take(n) == b.take(n),
    ensures
        lex_lt(a, b) == lex_lt(a.skip(n), b.skip(n)),
    decreases n,
{
    if n == 0 {
        assert(a.skip(0) =~= a);
        assert(b.skip(0) =~= b);
    } else {
        assert(a[0] == a.take(n)[0]);
        assert(b[0] == b.take(n)[0]);
        assert(a.drop_first().take(n - 1) =~= a.take(n).drop_first());
        assert(b.drop_first().take(n - 1) =~= b.take(n).drop_first());
        lemma_lex_lt_skips_common_prefix(a.drop_first(), b.drop_first(), n - 1);
        assert(a.drop_first().skip(n - 1) =~= a.skip(n));
        assert(b.drop_first().skip(n - 1) =~= b.skip(n));
    }
}

/// Whether `a` comes strictly before `b`.
pub fn str_lt(a: &str, b: &str) -> (before: bool)
    ensures
        before == lex_lt(a@, b@),
{
    let mut ia = a.chars();
    let mut ib = b.chars();
    let ghost mut n: int = 0;
    loop
        invariant
            0 <= n <= a@.len(),
            n <= b@.len(),
            ia.remaining() == a@.skip(n),
            ib.remaining() == b@.skip(n),
            a@.take(n) == b@.take(n),
        decreases a@.len() - n,
    {
        proof {
            lemma_lex_lt_skips_common_prefix(a@, b@, n);
        }
        let x = ia.next();
        let y = ib.next();
        match (x, y) {
            (_, None) => {
                return false;
            },
            (None, Some(_)) => {
                return true;
            },
            (Some(p), Some(q)) => {
                if p != q {
                    return p < q;
                }
                proof {
                    assert(a@.take(n + 1) == a@.take(n).push(a@[n]));
                    assert(b@.take(n + 1) == b@.take(n).push(b@[n]));
                    n = n + 1;
                }
            },
        }
    }
}

/// Where `name` belongs in the ascending `names`: behind every name that
/// comes before it, in front of every other.
fn insertion_point(names: &Vec<String>, name: &str) -> (at: usize)
    ensures
        at <= names.len(),
        forall|j: int| 0 <= j < at ==> lex_lt(#[trigger] names.deep_view()[j], name@),
        at < names.len() ==> !lex_lt(names.deep_view()[at as int], name@),
{
    let mut at: usize = 0;
    while at < names.len()
        invariant
            at <= names.len(),
            forall|j: int| 0 <= j < at ==> lex_lt(#[trigger] names.deep_view()[j], name@),
        decreases names.len() - at,
    {
        assert(names.deep_view()[at as int] == names[at as int]@);
        if !str_lt(names[at].as_str(), name) {
            return at;
        }
        at += 1;
    }
    at
}

/// Sorts `names` into ascending order. Every name stays, as often as it
/// occurred.
pub fn sort_names(names: Vec<String>) -> (sorted: Vec<String>)
    ensures
        ascending(sorted.deep_view()),
        sorted.deep_view().to_multiset() == names.deep_view().to_multiset(),
        sorted.len() == names.len(),
{
    broadcast use vstd::seq_lib::group_to_multiset_ensures;

    let mut sorted: Vec<String> = Vec::new();
    let mut i: usize = 0;
    assert(names.deep_view().take(0) =~= Seq::<Seq<char>>::empty());
    assert(sorted.deep_view() =~= Seq::<Seq<char>>::empty());
    while i < names.len()
        invariant
            i <= names.len(),
            sorted.len() == i,
            ascending(sorted.deep_view()),
            sorted.deep_view().to_multiset() == names.deep_view().take(i as int).to_multiset(),
        decreases names.len() - i,
    {
        let name = names[i].clone();
        assert(names.deep_view()[i as int] == name@);
        let at = insertion_point(&sorted, name.as_str());
        let ghost before = sorted.deep_view();
        sorted.insert(at, name);
        let ghost after = sorted.deep_view();
        proof {
            assert(after =~= before.insert(at as int, name@));
            lemma_insert_keeps_ascending(before, at as int, name@);
            lemma_insert_to_multiset(before, at as int, name@);
            let seen = names.deep_view().take(i as int);
            assert(names.deep_view().take(i as int + 1) =~= seen.push(name@));
            vstd::seq_lib::to_multiset_build(seen, name@);
            assert(after.to_multiset() == names.deep_view().take(i as int + 1).to_multiset());
        }
        i += 1;
    }
    assert(names.deep_view().take(i as int) =~= names.deep_view());
    sorted
}

/// Sorts `names` into strictly ascending order: every name that occurs stays,
/// once.
pub fn sort_unique(names: Vec<String>) -> (sorted: Vec<String>)
    ensures
        strictly_ascending(sorted.deep_view()),
        same_members(sorted.deep_view(), names.deep_view()),
        sorted.deep_view() == sorted_members(names.deep_view()),
{
    let mut sorted: Vec<String> = Vec::new();
    let mut i: usize = 0;
    while i < names.len()
        invariant
            i <= names.len(),
            strictly_ascending(sorted.deep_view()),
            forall|name: Seq<char>|
                sorted.deep_view().contains(name) <==> names.deep_view().take(i as int).contains(
                    name,
                ),
        decreases names.len() - i,
    {
        let name = names[i].clone();
        assert(names.deep_view()[i as int] == name@);
        let at = insertion_point(&sorted, name.as_str());
        let ghost before = sorted.deep_view();
        let ghost seen = names.deep_view().take(i as int);
        let ghost seen_next = names.deep_view().take(i as int + 1);
        assert(seen_next =~= seen.push(name@));
        let present = at < sorted.len() && !str_lt(name.as_str(), sorted[at].as_str());
        if present {
            proof {
                assert(before[at as int] == sorted[at as int]@);
                lemma_lex_lt_total(before[at as int], name@);
                assert forall|other: Seq<char>| before.contains(other) <==> seen_next.contains(
                    other,
                ) by {
                    if seen_next.contains(other) {
                        let k = choose|k: int| 0 <= k < seen_next.len() && seen_next[k] == other;
                        if k < seen.len() {
                            assert(seen[k] == other);
                        }
                    }
                    if before.contains(other) {
                        let k = choose|k: int| 0 <= k < seen.len() && seen[k] == other;
                        assert(seen_next[k] == other);
                    }
                }
            }
        } else {
            sorted.insert(at, name);
            proof {
                let after = sorted.deep_view();
                assert(after =~= before.insert(at as int, name@));
                if at < before.len() {
                    assert(lex_lt(name@, before[at as int]));
                }
                lemma_insert_keeps_strictly_ascending(before, at as int, name@);
                assert forall|other: Seq<char>| after.contains(other) <==> seen_next.contains(
                    other,
                ) by {
                    if after.contains(other) {
                        let k = choose|k: int| 0 <= k < after.len() && after[k] == other;
                        if k < at {
                            assert(before[k] == other);
                        } else if k > at {
                            assert(before[k - 1] == other);
                        }
                        if k != at {
                            assert(before.contains(other));
                            let m = choose|m: int| 0 <= m < seen.len() && seen[m] == other;
                            assert(seen_next[m] == other);
                        } else {
                            assert(seen_next[i as int] == other);
                        }
                    }
                    if seen_next.contains(other) {
                        let k = choose|k: int| 0 <= k < seen_next.len() && seen_next[k] == other;
                        if k < seen.len() {
                            assert(seen[k] == other);
                            assert(before.contains(other));
                            let m = choose|m: int| 0 <= m < before.len() && before[m] == other;
                            if m < at {
                                assert(after[m] == other);
                            } else {
                                assert(after[m + 1] == other);
                            }
                        } else {
                            assert(after[at as int] == other);
                        }
                    }
                }
            }
        }
        i += 1;
    }
    assert(names.deep_view().take(i as int) =~= names.deep_view());
    proof {
        lemma_strictly_ascending_unique(sorted.deep_view(), sorted_members(names.deep_view()));
    }
    sorted
}

/// A set of names has one strictly ascending arrangement only.
pub proof fn lemma_strictly_ascending_unique(a: Seq<Seq<char>>, b: Seq<Seq<char>>)
    requires
        strictly_ascending(a),
        strictly_ascending(b),
        same_members(a, b),
    ensures
        a == b,
    decreases a.len(),
{
    if a.len() == 0 {
        if b.len() > 0 {
            assert(b.contains(b[0]));
        }
        assert(a =~= b);
    } else {
        assert(a.contains(a[0]));
        let k = choose|k: int| 0 <= k < b.len() && b[k] == a[0];
        assert(b.contains(b[0]));
        let m = choose|m: int| 0 <= m < a.len() && a[m] == b[0];
        if k > 0 {
            if m > 0 {
                lemma_lex_lt_transitive(b[0], a[0], b[0]);
            }
            lemma_lex_lt_irreflexive(b[0]);
        }
        assert(a[0] == b[0]);
        let a1 = a.drop_first();
        let b1 = b.drop_first();
        assert forall|i: int, j: int| 0 <= i < j < a1.len() implies lex_lt(a1[i], a1[j]) by {
            assert(a1[i] == a[i + 1] && a1[j] == a[j + 1]);
        }
        assert forall|i: int, j: int| 0 <= i < j < b1.len() implies lex_lt(b1[i], b1[j]) by {
            assert(b1[i] == b[i + 1] && b1[j] == b[j + 1]);
        }
        assert forall|name: Seq<char>| a1.contains(name) <==> b1.contains(name) by {
            if a1.contains(name) {
                let i = choose|i: int| 0 <= i < a1.len() && a1[i] == name;
                assert(a[i + 1] == name);
                assert(a.contains(name));
                let j = choose|j: int| 0 <= j < b.len() && b[j] == name;
                if j == 0 {
                    lemma_lex_lt_irreflexive(name);
                }
                assert(b1[j - 1] == name);
            }
            if b1.contains(name) {
                let i = choose|i: int| 0 <= i < b1.len() && b1[i] == name;
                assert(b[i + 1] == name);
                assert(b.contains(name));
                let j = choose|j: int| 0 <= j < a.len() && a[j] == name;
                if j == 0 {
                    lemma_lex_lt_irreflexive(name);
                }
                assert(a1[j - 1] == name);
            }
        }
        lemma_strictly_ascending_unique(a1, b1);
        assert(a =~= seq![a[0]] + a1);
        assert(b =~= seq![b[0]] + b1);
    }
}

/// Every sequence of names has a strictly ascending arrangement of its
/// members, so `sorted_members` is that arrangement: it is strictly ascending
/// and holds the names of `names`, and no others.
pub proof fn lemma_sorted_members(names: Seq<Seq<char>>)
    ensures
        strictly_ascending(sorted_members(names)),
        same_members(sorted_members(names), names),
{
    let witness = arrange(names);
    assert(strictly_ascending(witness) && same_members(witness, names));
}

/// A strictly ascending arrangement of the members of `names`.
proof fn arrange(names: Seq<Seq<char>>) -> (sorted: Seq<Seq<char>>)
    ensures
        strictly_ascending(sorted),
        same_members(sorted, names),
    decreases names.len(),
{
    if names.len() == 0 {
        names
    } else {
        let earlier = arrange(names.drop_last());
        let name = names.last();
        let at = place(earlier, name, earlier.len() as int);
        assert forall|other: Seq<char>| names.contains(other) <==> (names.drop_last().contains(
            other,
        ) || other == name) by {
            if names.contains(other) {
                let k = choose|k: int| 0 <= k < names.len() && names[k] == other;
                if k < names.len() - 1 {
                    assert(names.drop_last()[k] == other);
                }
            }
            if names.drop_last().contains(other) {
                let k = choose|k: int|
                    0 <= k < names.drop_last().len() && names.drop_last()[k] == other;
                assert(names[k] == other);
            }
            if other == name {
                assert(names[names.len() - 1] == other);
            }
        }
        if at < earlier.len() && !lex_lt(name, earlier[at]) {
            lemma_lex_lt_total(earlier[at], name);
            assert(earlier.contains(name));
            earlier
        } else {
            let sorted = earlier.insert(at, name);
            lemma_insert_keeps_strictly_ascending(earlier, at, name);
            assert forall|other: Seq<char>| sorted.contains(other) <==> (earlier.contains(other)
                || other == name) by {
                if sorted.contains(other) {
                    let k = choose|k: int| 0 <= k < sorted.len() && sorted[k] == other;
                    if k < at {
                        assert(earlier[k] == other);
                    } else if k > at {
                        assert(earlier[k - 1] == other);
                    }
                }
                if earlier.contains(other) {
                    let k = choose|k: int| 0 <= k < earlier.len() && earlier[k] == other;
                    if k < at {
                        assert(sorted[k] == other);
                    } else {
                        assert(sorted[k + 1] == other);
                    }
                }
                if other == name {
                    assert(sorted[at] == other);
                }
            }
            sorted
        }
    }
}

/// The place of `name` among the first `upto` of the strictly ascending
/// `names`: behind every name that comes before it, in front of every other.
proof fn place(names: Seq<Seq<char>>, name: Seq<char>, upto: int) -> (at: int)
    requires
        strictly_ascending(names),
        0 <= upto <= names.len(),
        forall|j: int| upto <= j < names.len() ==> !lex_lt(#[trigger] names[j], name),
    ensures
        0 <= at <= names.len(),
        forall|j: int| 0 <= j < at ==> lex_lt(#[trigger] names[j], name),
        at < names.len() ==> !lex_lt(names[at], name),
    decreases upto,
{
    if upto == 0 {
        0
    } else if lex_lt(names[upto - 1], name) {
        assert forall|j: int| 0 <= j < upto implies lex_lt(#[trigger] names[j], name) by {
            if j < upto - 1 {
                lemma_lex_lt_transitive(names[j], names[upto - 1], name);
            }
        }
        upto
    } else {
        place(names, name, upto - 1)
    }
}

/// Inserting a name adds one occurrence of it and changes nothing else.
proof fn lemma_insert_to_multiset(names: Seq<Seq<char>>, at: int, name: Seq<char>)
    requires
        0 <= at <= names.len(),
    ensures
        names.insert(at, name).to_multiset() == names.to_multiset().insert(name),
{
    broadcast use vstd::multiset::group_multiset_axioms;

    let after = names.insert(at, name);
    vstd::seq_lib::to_multiset_remove(after, at);
    assert(after.remove(at) =~= names);
    after.to_multiset_ensures();
    assert(after[at] == name);
    assert(after.contains(name));
    assert(after.to_multiset() =~= names.to_multiset().insert(name));
}

/// A name put at its insertion point leaves an ascending sequence ascending.
proof fn lemma_insert_keeps_ascending(names: Seq<Seq<char>>, at: int, name: Seq<char>)
    requires
        ascending(names),
        0 <= at <= names.len(),
        forall|j: int| 0 <= j < at ==> lex_lt(#[trigger] names[j], name),
        at < names.len() ==> !lex_lt(names[at], name),
    ensures
        ascending(names.insert(at, name)),
{
    let after = names.insert(at, name);
    assert forall|i: int, j: int| 0 <= i < j < after.len() implies !lex_lt(after[j], after[i]) by {
        if j == at {
            assert(after[i] == names[i]);
            lemma_lex_lt_asymmetric(names[i], name);
        } else if i == at {
            assert(after[j] == names[j - 1]);
            if lex_lt(names[j - 1], name) {
                // names[at] does not come after names[j - 1], which comes before `name`.
                if j - 1 > at {
                    lemma_lex_lt_chain(names[j - 1], name, names[at]);
                }
            }
        } else {
            let oi = if i < at {
                i
            } else {
                i - 1
            };
            let oj = if j < at {
                j
            } else {
                j - 1
            };
            assert(after[i] == names[oi] && after[j] == names[oj]);
        }
    }
}

/// A name put at its insertion point, where it does not stand yet, leaves a
/// strictly ascending sequence strictly ascending.
proof fn lemma_insert_keeps_strictly_ascending(names: Seq<Seq<char>>, at: int, name: Seq<char>)
    requires
        strictly_ascending(names),
        0 <= at <= names.len(),
        forall|j: int| 0 <= j < at ==> lex_lt(#[trigger] names[j], name),
        at < names.len() ==> lex_lt(name, names[at]),
    ensures
        strictly_ascending(names.insert(at, name)),
{
    let after = names.insert(at, name);
    assert forall|i: int, j: int| 0 <= i < j < after.len() implies lex_lt(after[i], after[j]) by {
        if j == at {
            assert(after[i] == names[i]);
        } else if i == at {
            assert(after[j] == names[j - 1]);
            if j - 1 > at {
                lemma_lex_lt_transitive(name, names[at], names[j - 1]);
            }
        } else {
            let oi = if i < at {
                i
            } else {
                i - 1
            };
            let oj = if j < at {
                j
            } else {
                j - 1
            };
            assert(after[i] == names[oi] && after[j] == names[oj]);
        }
    }
}

} // verus!
