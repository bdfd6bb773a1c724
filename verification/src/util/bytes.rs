//! Lexicographic order on byte strings, the order of `str` and `[u8]`.

use vstd::prelude::*;

verus! {

/// Whether `a` sorts strictly before `b` when both agree on every byte
/// before `index`.
pub open spec fn bytes_lt_from(a: Seq<u8>, b: Seq<u8>, index: int) -> bool
    decreases a.len() - index,
{
    if index >= a.len() {
        index < b.len()
    } else if index >= b.len() {
        false
    } else if a[index] != b[index] {
        a[index] < b[index]
    } else {
        bytes_lt_from(a, b, index + 1)
    }
}

/// Lexicographic strict order on byte strings: the first differing byte
/// decides, and a proper prefix sorts first.
pub open spec fn bytes_lt(a: Seq<u8>, b: Seq<u8>) -> bool {
    bytes_lt_from(a, b, 0)
}

/// The three answers of a byte-string comparison.
#[derive(Clone, Copy, Debug, PartialEq, Eq, Hash, Structural)]
pub enum ByteComparison {
    /// The left string sorts first.
    Less,
    /// Both strings are equal.
    Equal,
    /// The right string sorts first.
    Greater,
}

proof fn lemma_lt_from_irreflexive(a: Seq<u8>, index: int)
    requires
        0 <= index,
    ensures
        !bytes_lt_from(a, a, index),
    decreases a.len() - index,
{
    if index < a.len() {
        lemma_lt_from_irreflexive(a, index + 1);
    }
}

proof fn lemma_lt_from_asymmetric(a: Seq<u8>, b: Seq<u8>, index: int)
    requires
        0 <= index,
        bytes_lt_from(a, b, index),
    ensures
        !bytes_lt_from(b, a, index),
    decreases a.len() - index,
{
    if index < a.len() && index < b.len() && a[index] == b[index] {
        lemma_lt_from_asymmetric(a, b, index + 1);
    }
}

proof fn lemma_lt_from_transitive(a: Seq<u8>, b: Seq<u8>, c: Seq<u8>, index: int)
    requires
        0 <= index,
        bytes_lt_from(a, b, index),
        bytes_lt_from(b, c, index),
    ensures
        bytes_lt_from(a, c, index),
    decreases a.len() - index,
{
    if index < a.len() && index < b.len() && index < c.len() && a[index] == b[index] && b[index]
        == c[index] {
        lemma_lt_from_transitive(a, b, c, index + 1);
    }
}

proof fn lemma_lt_from_total(a: Seq<u8>, b: Seq<u8>, index: int)
    requires
        0 <= index <= a.len(),
        index <= b.len(),
        forall|k: int| 0 <= k < index ==> a[k] == b[k],
    ensures
        a == b || bytes_lt_from(a, b, index) || bytes_lt_from(b, a, index),
    decreases a.len() - index,
{
    if index == a.len() && index == b.len() {
        assert(a =~= b);
    } else if index < a.len() && index < b.len() && a[index] == b[index] {
        lemma_lt_from_total(a, b, index + 1);
    }
}

/// No byte string sorts before itself.
pub proof fn lemma_bytes_lt_irreflexive(a: Seq<u8>)
    ensures
        !bytes_lt(a, a),
{
    lemma_lt_from_irreflexive(a, 0);
}

/// Of two byte strings at most one sorts before the other.
pub proof fn lemma_bytes_lt_asymmetric(a: Seq<u8>, b: Seq<u8>)
    requires
        bytes_lt(a, b),
    ensures
        !bytes_lt(b, a),
{
    lemma_lt_from_asymmetric(a, b, 0);
}

/// The order is transitive.
pub proof fn lemma_bytes_lt_transitive(a: Seq<u8>, b: Seq<u8>, c: Seq<u8>)
    requires
        bytes_lt(a, b),
        bytes_lt(b, c),
    ensures
        bytes_lt(a, c),
{
    lemma_lt_from_transitive(a, b, c, 0);
}

/// Two distinct byte strings are ordered one way or the other.
pub proof fn lemma_bytes_lt_total(a: Seq<u8>, b: Seq<u8>)
    ensures
        a == b || bytes_lt(a, b) || bytes_lt(b, a),
{
    lemma_lt_from_total(a, b, 0);
}

/// Compares two byte strings lexicographically.
pub fn compare_bytes(a: &[u8], b: &[u8]) -> (order: ByteComparison)
    ensures
        order == ByteComparison::Less <==> bytes_lt(a@, b@),
        order == ByteComparison::Equal <==> a@ == b@,
        order == ByteComparison::Greater <==> bytes_lt(b@, a@),
{
    proof {
        lemma_bytes_lt_irreflexive(a@);
        lemma_bytes_lt_total(a@, b@);
        if bytes_lt(a@, b@) {
            lemma_bytes_lt_asymmetric(a@, b@);
        }
    }
    let mut index: usize = 0;
    while index < a.len() && index < b.len()
        invariant
            index <= a@.len(),
            index <= b@.len(),
            forall|k: int| 0 <= k < index ==> a@[k] == b@[k],
            bytes_lt(a@, b@) == bytes_lt_from(a@, b@, index as int),
            bytes_lt(b@, a@) == bytes_lt_from(b@, a@, index as int),
        decreases a@.len() - index,
    {
        if a[index] != b[index] {
            if a[index] < b[index] {
                return ByteComparison::Less;
            } else {
                return ByteComparison::Greater;
            }
        }
        index = index + 1;
    }
    if index < b.len() {
        ByteComparison::Less
    } else if index < a.len() {
        ByteComparison::Greater
    } else {
        assert(a@ =~= b@);
        ByteComparison::Equal
    }
}

} // verus!
