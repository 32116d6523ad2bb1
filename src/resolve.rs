//! Which paths of a group of duplicates are to go, under a retention policy.
use vstd::prelude::*;
use crate::text::{
    contains, has_sub, is_sorted, lemma_le_antisymmetric, lemma_le_reflexive, seq_le, sort_paths,
};

verus! {

broadcast use vstd::seq_lib::group_seq_properties;

/// The paths, in their order, that do not contain `keep`.
pub open spec fn non_matching(paths: Seq<String>, keep: Seq<char>) -> Seq<String>
    decreases paths.len(),
{
    if paths.len() == 0 {
        Seq::empty()
    } else {
        let init = non_matching(paths.drop_last(), keep);
        if has_sub(paths.last()@, keep) {
            init
        } else {
            init.push(paths.last())
        }
    }
}

/// The first `n` items of `s`, or all of them where there are no more.
pub open spec fn capped(s: Seq<String>, n: nat) -> Seq<String> {
    if s.len() <= n {
        s
    } else {
        s.take(n as int)
    }
}

/// The items of `s` after its first `n`, none where there are no more.
pub open spec fn beyond(s: Seq<String>, n: nat) -> Seq<String> {
    if s.len() <= n {
        Seq::empty()
    } else {
        s.skip(n as int)
    }
}

/// Removal set under a preferred substring: the first `n` of the paths that do
/// not contain it, in their order.
pub open spec fn removal_by_preference(paths: Seq<String>, keep: Seq<char>, n: nat) -> Seq<
    String,
> {
    capped(non_matching(paths, keep), n)
}

/// `r` is the removal set under a count: the paths in ascending order, less the
/// first `n`.
pub open spec fn is_removal_by_count(paths: Seq<String>, n: nat, r: Seq<String>) -> bool {
    exists|s: Seq<String>|
        is_sorted(s) && s.to_multiset() == paths.to_multiset() && r == #[trigger] beyond(s, n)
}

/// `r` is the removal set of `paths` under the policy: the preferred substring
/// `keep` where there is one, else the count `n` alone.
pub open spec fn is_removal(paths: Seq<String>, keep: Option<String>, n: nat, r: Seq<String>) -> bool {
    match keep {
        Some(k) => r == removal_by_preference(paths, k@, n),
        None => is_removal_by_count(paths, n, r),
    }
}

/// Copies the paths in their order.
pub(crate) fn copy_paths(paths: &Vec<String>) -> (r: Vec<String>)
    ensures
        r@ == paths@,
{
    let mut r: Vec<String> = Vec::new();
    let mut i: usize = 0;
    while i < paths.len()
        invariant
            i <= paths.len(),
            r@ == paths@.take(i as int),
        decreases paths.len() - i,
    {
        r.push(paths[i].clone());
        i += 1;
        assert(r@ =~= paths@.take(i as int));
    }
    assert(r@ =~= paths@);
    r
}

/// Keeps the first `skip` paths in ascending order and returns the others, in
/// that order.
pub fn remove_by_count(paths: &Vec<String>, skip: usize) -> (r: Vec<String>)
    ensures
        is_removal_by_count(paths@, skip as nat, r@),
{
    let mut sorted = copy_paths(paths);
    sort_paths(&mut sorted);
    let mut r: Vec<String> = Vec::new();
    let mut j: usize = skip;
    while j < sorted.len()
        invariant
            skip <= j,
            j < sorted.len() ==> r@ == sorted@.subrange(skip as int, j as int),
            j >= sorted.len() ==> r@ == beyond(sorted@, skip as nat),
        decreases sorted.len() - j,
    {
        r.push(sorted[j].clone());
        j += 1;
        assert(r@ =~= sorted@.subrange(skip as int, j as int));
        assert(j == sorted.len() ==> sorted@.subrange(skip as int, j as int) =~= beyond(sorted@, skip as nat));
    }
    if skip >= sorted.len() {
        assert(r@ =~= beyond(sorted@, skip as nat));
    }
    assert(is_sorted(sorted@) && sorted@.to_multiset() == paths@.to_multiset() && r@ == beyond(sorted@, skip as nat));
    r
}

/// Returns the first `skip` paths, in their order, that do not contain `keep`.
pub fn remove_by_preference(paths: &Vec<String>, keep: &str, skip: usize) -> (r: Vec<String>)
    ensures
        r@ == removal_by_preference(paths@, keep@, skip as nat),
{
    let mut r: Vec<String> = Vec::new();
    let mut i: usize = 0;
    while i < paths.len()
        invariant
            i <= paths.len(),
            r@ == capped(non_matching(paths@.take(i as int), keep@), skip as nat),
        decreases paths.len() - i,
    {
        let ghost before = non_matching(paths@.take(i as int), keep@);
        let p = &paths[i];
        let matched = contains(p.as_str(), keep);
        if !matched && r.len() < skip {
            r.push(p.clone());
        }
        proof {
            let next = paths@.take(i + 1);
            assert(next.drop_last() =~= paths@.take(i as int));
            assert(next.last() == paths@[i as int]);
            if !matched {
                let after = before.push(paths@[i as int]);
                assert(non_matching(next, keep@) == after);
                if before.len() >= skip {
                    assert(after.take(skip as int) =~= before.take(skip as int));
                    assert(before.len() == skip ==> before.take(skip as int) =~= before);
                }
            }
        }
        i += 1;
    }
    assert(paths@.take(paths.len() as int) =~= paths@);
    r
}

/// The removal set of a group's paths under a retention policy: with a
/// preferred substring, the first `skip` paths that lack it; without one, all
/// but the first `skip` paths in ascending order.
pub fn resolve(paths: &Vec<String>, keep_path: &Option<String>, skip: usize) -> (r: Vec<String>)
    ensures
        is_removal(paths@, *keep_path, skip as nat, r@),
{
    match keep_path {
        Some(k) => remove_by_preference(paths, k.as_str(), skip),
        None => remove_by_count(paths, skip),
    }
}

/// A path is among those that lack `keep` exactly when it is one of the paths
/// and lacks it.
pub proof fn lemma_non_matching_members(paths: Seq<String>, keep: Seq<char>)
    ensures
        forall|x: String|
            #[trigger] non_matching(paths, keep).contains(x) <==> (paths.contains(x) && !has_sub(
                x@,
                keep,
            )),
    decreases paths.len(),
{
    if paths.len() > 0 {
        let init = paths.drop_last();
        lemma_non_matching_members(init, keep);
        assert(paths =~= init.push(paths.last()));
        assert forall|x: String| #[trigger] non_matching(paths, keep).contains(x) <==> (
        paths.contains(x) && !has_sub(x@, keep)) by {
            if paths.contains(x) && !has_sub(x@, keep) && x != paths.last() {
                let k = choose|k: int| 0 <= k < paths.len() && paths[k] == x;
                assert(init[k] == x);
            }
            if non_matching(init, keep).contains(x) {
                let k = choose|k: int| 0 <= k < init.len() && init[k] == x;
                assert(paths[k] == x);
            }
        }
    }
}

/// Under a count `n` no larger than the group, exactly `paths.len() - n` paths
/// are removed, each one of the group, and each at or after, in ascending
/// order, every path kept: the `n`-th smallest among them.
pub proof fn law_count_removes_the_rest(paths: Seq<String>, n: nat, r: Seq<String>)
    requires
        n <= paths.len(),
        is_removal_by_count(paths, n, r),
    ensures
        r.len() == paths.len() - n,
        forall|x: String| r.contains(x) ==> paths.contains(x),
        exists|s: Seq<String>|
            s.to_multiset() == paths.to_multiset() && is_sorted(s) && s.take(n as int) + r == s
                && forall|i: int, j: int|
                0 <= j < n && 0 <= i < r.len() ==> seq_le(#[trigger] s[j]@, #[trigger] r[i]@),
{
    broadcast use vstd::seq::Seq::to_multiset_ensures;

    let s = choose|s: Seq<String>|
        is_sorted(s) && s.to_multiset() == paths.to_multiset() && r == #[trigger] beyond(s, n);
    assert(s.len() == s.to_multiset().len());
    assert(paths.len() == paths.to_multiset().len());
    if s.len() == n {
        assert(r =~= s.skip(n as int));
    }
    assert(s.take(n as int) + r =~= s);
    assert forall|x: String| r.contains(x) implies paths.contains(x) by {
        let k = choose|k: int| 0 <= k < r.len() && r[k] == x;
        assert(s[n + k] == x);
        assert(s.contains(x));
        assert(s.to_multiset().count(x) > 0);
        assert(paths.to_multiset().count(x) > 0);
    }
    assert forall|i: int, j: int| 0 <= j < n && 0 <= i < r.len() implies seq_le(
        #[trigger] s[j]@,
        #[trigger] r[i]@,
    ) by {
        assert(r[i] == s[n + i]);
    }
}

/// Under a preferred substring, no path that holds it is removed; the paths
/// that lack it are removed by position alone: the first `n` of them, in their
/// order, and only those.
pub proof fn law_preference_spares_matches(paths: Seq<String>, keep: Seq<char>, n: nat)
    ensures
        forall|x: String|
            #[trigger] removal_by_preference(paths, keep, n).contains(x) ==> paths.contains(x)
                && !has_sub(x@, keep),
        removal_by_preference(paths, keep, n).len() <= n,
        removal_by_preference(paths, keep, n) == non_matching(paths, keep).take(
            removal_by_preference(paths, keep, n).len() as int,
        ),
        removal_by_preference(paths, keep, n).len() < n ==> removal_by_preference(paths, keep, n)
            == non_matching(paths, keep),
{
    lemma_non_matching_members(paths, keep);
    let f = non_matching(paths, keep);
    let r = removal_by_preference(paths, keep, n);
    assert(r.len() == f.len() ==> r =~= f.take(r.len() as int));
    assert forall|x: String| #[trigger] r.contains(x) implies paths.contains(x) && !has_sub(
        x@,
        keep,
    ) by {
        let k = choose|k: int| 0 <= k < r.len() && r[k] == x;
        assert(f[k] == x);
        assert(f.contains(x));
    }
}

/// Two ascending orders of the same paths agree, position by position, on
/// the text of each path.
pub proof fn lemma_sorted_orders_agree(s1: Seq<String>, s2: Seq<String>)
    requires
        is_sorted(s1),
        is_sorted(s2),
        s1.to_multiset() == s2.to_multiset(),
    ensures
        s1.len() == s2.len(),
        forall|i: int| 0 <= i < s1.len() ==> (#[trigger] s1[i])@ == s2[i]@,
    decreases s1.len(),
{
    broadcast use vstd::seq::Seq::to_multiset_ensures;

    assert(s1.len() == s1.to_multiset().len());
    assert(s2.len() == s2.to_multiset().len());
    if s1.len() > 0 {
        assert(s1.to_multiset().count(s1[0]) > 0);
        assert(s2.contains(s1[0]));
        let k = choose|k: int| 0 <= k < s2.len() && s2[k] == s1[0];
        assert(s2.to_multiset().count(s2[0]) > 0);
        assert(s1.contains(s2[0]));
        let j = choose|j: int| 0 <= j < s1.len() && s1[j] == s2[0];
        lemma_le_reflexive(s1[0]@);
        lemma_le_reflexive(s2[0]@);
        if k > 0 {
            assert(seq_le(s2[0]@, s2[k]@));
        }
        if j > 0 {
            assert(seq_le(s1[0]@, s1[j]@));
        }
        lemma_le_antisymmetric(s1[0]@, s2[0]@);
        let t1 = s1.drop_first();
        let t2 = s2.remove(k);
        assert(s1.remove(0) =~= t1);
        assert(t1.to_multiset() == t2.to_multiset());
        assert forall|a: int, b: int| 0 <= a < b < t2.len() implies seq_le(
            #[trigger] t2[a]@,
            #[trigger] t2[b]@,
        ) by {
            let a2 = if a < k { a } else { a + 1 };
            let b2 = if b < k { b } else { b + 1 };
            assert(t2[a] == s2[a2]);
            assert(t2[b] == s2[b2]);
        }
        assert forall|a: int, b: int| 0 <= a < b < t1.len() implies seq_le(
            #[trigger] t1[a]@,
            #[trigger] t1[b]@,
        ) by {
            assert(t1[a] == s1[a + 1]);
            assert(t1[b] == s1[b + 1]);
        }
        lemma_sorted_orders_agree(t1, t2);
        assert forall|i: int| 0 <= i < s1.len() implies (#[trigger] s1[i])@ == s2[i]@ by {
            if i > 0 {
                assert(s1[i] == t1[i - 1]);
                if i - 1 >= k {
                    assert(t2[i - 1] == s2[i]);
                } else {
                    // Between the first and the k-th, all of s2 reads as its first.
                    assert(t2[i - 1] == s2[i - 1]);
                    lemma_le_antisymmetric(s2[i - 1]@, s2[0]@);
                    lemma_le_antisymmetric(s2[i]@, s2[0]@);
                }
            }
        }
    }
}

/// The count policy determines its removal set: any two that meet it hold the
/// same paths, in the same order.
pub proof fn law_count_removal_is_determined(
    paths: Seq<String>,
    n: nat,
    r1: Seq<String>,
    r2: Seq<String>,
)
    requires
        is_removal_by_count(paths, n, r1),
        is_removal_by_count(paths, n, r2),
    ensures
        r1.len() == r2.len(),
        forall|i: int| 0 <= i < r1.len() ==> (#[trigger] r1[i])@ == r2[i]@,
{
    let s1 = choose|s: Seq<String>|
        is_sorted(s) && s.to_multiset() == paths.to_multiset() && r1 == #[trigger] beyond(s, n);
    let s2 = choose|s: Seq<String>|
        is_sorted(s) && s.to_multiset() == paths.to_multiset() && r2 == #[trigger] beyond(s, n);
    lemma_sorted_orders_agree(s1, s2);
    assert forall|i: int| 0 <= i < r1.len() implies (#[trigger] r1[i])@ == r2[i]@ by {
        assert(r1[i] == s1[n + i]);
        assert(r2[i] == s2[n + i]);
    }
}

} // verus!
