//! Orders and searches on paths, viewed as sequences of characters.
use vstd::prelude::*;

verus! {

/// Lexicographic order on character sequences, by code point: the order of
/// `str`, since UTF-8 keeps code point order byte by byte.
pub open spec fn seq_le(a: Seq<char>, b: Seq<char>) -> bool
    decreases a.len(),
{
    if a.len() == 0 {
        true
    } else if b.len() == 0 {
        false
    } else if a[0] != b[0] {
        (a[0] as u32) < (b[0] as u32)
    } else {
        seq_le(a.drop_first(), b.drop_first())
    }
}

/// Every sequence is at or before itself.
pub proof fn lemma_le_reflexive(a: Seq<char>)
    ensures
        seq_le(a, a),
    decreases a.len(),
{
    if a.len() > 0 {
        lemma_le_reflexive(a.drop_first());
    }
}

/// Two sequences each at or before the other are the same.
pub proof fn lemma_le_antisymmetric(a: Seq<char>, b: Seq<char>)
    requires
        seq_le(a, b),
        seq_le(b, a),
    ensures
        a == b,
    decreases a.len(),
{
    if a.len() > 0 {
        lemma_le_antisymmetric(a.drop_first(), b.drop_first());
        assert(a =~= seq![a[0]] + a.drop_first());
        assert(b =~= seq![b[0]] + b.drop_first());
    } else {
        assert(a =~= b);
    }
}

/// `needle` occurs in `hay` as a contiguous run of characters.
pub open spec fn has_sub(hay: Seq<char>, needle: Seq<char>) -> bool {
    exists|i: int|
        0 <= i && i + needle.len() <= hay.len() && #[trigger] hay.subrange(i, i + needle.len())
            == needle
}

/// Every pair of paths, in order, is ascending.
pub open spec fn is_sorted(s: Seq<String>) -> bool {
    forall|i: int, j: int| 0 <= i < j < s.len() ==> seq_le(#[trigger] s[i]@, #[trigger] s[j]@)
}

/// Relies on str::contains with a `&str` pattern: true exactly when the pattern
/// occurs in the text. A run of characters of valid UTF-8 is a run of its bytes
/// and back, so the statement over characters is the statement over bytes.
#[verifier::external_body]
pub(crate) fn contains(hay: &str, needle: &str) -> (r: bool)
    ensures
        r == has_sub(hay@, needle@),
{
    hay.contains(needle)
}

/// Relies on slice::sort on `String`s: the same items, ascending by `str`'s
/// order.
#[verifier::external_body]
pub(crate) fn sort_paths(v: &mut Vec<String>)
    ensures
        final(v)@.to_multiset() == old(v)@.to_multiset(),
        is_sorted(final(v)@),
{
    v.sort();
}

} // verus!
