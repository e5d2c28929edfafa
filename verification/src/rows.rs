//! Which rows of a list are kept.

use vstd::prelude::*;

verus! {

/// The positions below `n` that a test keeps, in order.
pub open spec fn kept(n: nat, test: spec_fn(int) -> bool) -> Seq<int>
    decreases n,
{
    if n == 0 {
        Seq::empty()
    } else {
        let rest = kept((n - 1) as nat, test);
        if test(n - 1) {
            rest.push(n - 1)
        } else {
            rest
        }
    }
}

/// A list of positions as mathematical integers.
pub open spec fn positions(list: Seq<usize>) -> Seq<int> {
    Seq::new(list.len(), |i: int| list[i] as int)
}

/// The first position below `n` that a test holds at, or `n`.
pub open spec fn first(n: nat, test: spec_fn(int) -> bool) -> int
    decreases n,
{
    if n == 0 {
        0
    } else {
        let earlier = first((n - 1) as nat, test);
        if earlier < n - 1 {
            earlier
        } else if test(n - 1) {
            n - 1
        } else {
            n as int
        }
    }
}

/// Exactly the positions that the test holds at are kept, each once and in order.
pub proof fn kept_are_those_that_pass(n: nat, test: spec_fn(int) -> bool)
    ensures
        kept(n, test).len() <= n,
        forall|i: int|
            0 <= i < kept(n, test).len() ==> 0 <= #[trigger] kept(n, test)[i] < n && test(
                kept(n, test)[i],
            ),
        forall|p: int| 0 <= p < n && test(p) ==> #[trigger] kept(n, test).contains(p),
        forall|i: int, j: int|
            0 <= i < j < kept(n, test).len() ==> #[trigger] kept(n, test)[i] < #[trigger] kept(
                n,
                test,
            )[j],
    decreases n,
{
    if n > 0 {
        let m = (n - 1) as nat;
        kept_are_those_that_pass(m, test);
        assert forall|p: int| 0 <= p < n && test(p) implies #[trigger] kept(n, test).contains(
            p,
        ) by {
            if p < m {
                let at = choose|i: int| 0 <= i < kept(m, test).len() && kept(m, test)[i] == p;
                assert(kept(m, test).contains(p));
                assert(kept(n, test)[at] == p);
            } else {
                assert(kept(n, test)[kept(m, test).len() as int] == p);
            }
        }
    }
}

/// The first position is the only one that the test holds at with none before.
pub proof fn lemma_first(n: nat, test: spec_fn(int) -> bool, at: int)
    requires
        0 <= at <= n,
        forall|i: int| 0 <= i < at ==> !#[trigger] test(i),
        at == n || test(at),
    ensures
        first(n, test) == at,
    decreases n,
{
    if n > 0 {
        let m = (n - 1) as nat;
        if at <= m {
            lemma_first(m, test, at);
        } else {
            lemma_first(m, test, m as int);
        }
    }
}

/// The test holds at the first position, where there is one, and nowhere otherwise.
pub proof fn lemma_first_holds(n: nat, test: spec_fn(int) -> bool)
    ensures
        0 <= first(n, test) <= n,
        first(n, test) < n ==> test(first(n, test)),
        first(n, test) == n ==> forall|i: int| 0 <= i < n ==> !#[trigger] test(i),
    decreases n,
{
    if n > 0 {
        lemma_first_holds((n - 1) as nat, test);
    }
}

/// What the filter of a sequence gains from one more element.
pub proof fn lemma_filter_step<A>(s: Seq<A>, i: int, test: spec_fn(A) -> bool)
    requires
        0 <= i < s.len(),
    ensures
        s.take(i + 1).filter(test) == (if test(s[i]) {
            s.take(i).filter(test).push(s[i])
        } else {
            s.take(i).filter(test)
        }),
{
    reveal(Seq::filter);
    assert(s.take(i + 1).drop_last() == s.take(i));
    assert(s.take(i + 1).last() == s[i]);
}

/// No row before the first that passes does.
pub proof fn none_passes_before_the_first(n: nat, test: spec_fn(int) -> bool, i: int)
    requires
        0 <= i < first(n, test),
        i < n,
    ensures
        !test(i),
    decreases n,
{
    lemma_first_holds((n - 1) as nat, test);
    if i < n - 1 {
        none_passes_before_the_first((n - 1) as nat, test, i);
    }
}

/// Where every row passes, every row is kept.
pub proof fn all_are_kept(n: nat, test: spec_fn(int) -> bool)
    requires
        forall|i: int| 0 <= i < n ==> #[trigger] test(i),
    ensures
        kept(n, test).len() == n,
    decreases n,
{
    if n > 0 {
        all_are_kept((n - 1) as nat, test);
        assert(test(n - 1));
    }
}

/// A list of positions holds a row exactly where the row passes, and holds them in order.
pub proof fn listed_where_it_passes(n: nat, test: spec_fn(int) -> bool, found: Seq<usize>, i: int)
    requires
        positions(found) == kept(n, test),
        0 <= i < n,
    ensures
        (exists|k: int| 0 <= k < found.len() && #[trigger] found[k] == i) <==> test(i),
        forall|j: int, k: int|
            0 <= j < k < found.len() ==> #[trigger] found[j] < #[trigger] found[k],
{
    let kept = kept(n, test);
    kept_are_those_that_pass(n, test);
    assert(found.len() == kept.len());
    assert forall|k: int| 0 <= k < found.len() implies #[trigger] found[k] == kept[k] by {
        assert(positions(found)[k] == found[k]);
    }
    if test(i) {
        assert(kept.contains(i));
        let k = choose|k: int| 0 <= k < kept.len() && kept[k] == i;
        assert(found[k] == i);
    }
    if exists|k: int| 0 <= k < found.len() && #[trigger] found[k] == i {
        let k = choose|k: int| 0 <= k < found.len() && #[trigger] found[k] == i;
        assert(test(kept[k]));
    }
}

} // verus!
