use vstd::prelude::*;

use crate::region::{Error, Region};

verus! {

/// `a` is a proper prefix of `b`.
pub open spec fn proper_prefix(a: Seq<u8>, b: Seq<u8>) -> bool {
    a.len() < b.len() && forall|j: int| 0 <= j < a.len() ==> a[j] == b[j]
}

/// `a` and `b` first differ at position `i`, where `a` holds the smaller byte.
pub open spec fn first_diff_smaller(a: Seq<u8>, b: Seq<u8>, i: int) -> bool {
    &&& 0 <= i < a.len()
    &&& i < b.len()
    &&& a[i] < b[i]
    &&& forall|j: int| 0 <= j < i ==> a[j] == b[j]
}

/// Lexicographic order on byte strings: `a` sorts strictly before `b`.
pub open spec fn key_less(a: Seq<u8>, b: Seq<u8>) -> bool {
    proper_prefix(a, b) || exists|i: int| first_diff_smaller(a, b, i)
}

/// `key` lies in `[start_key, end_key)`, an empty `end_key` being unbounded.
pub open spec fn key_in_range(key: Seq<u8>, start_key: Seq<u8>, end_key: Seq<u8>) -> bool {
    !key_less(key, start_key) && (end_key.len() == 0 || key_less(key, end_key))
}

/// Compares two byte strings lexicographically.
pub fn key_lt(a: &[u8], b: &[u8]) -> (r: bool)
    ensures
        r == key_less(a@, b@),
{
    let mut i: usize = 0;
    while i < a.len() && i < b.len() && a[i] == b[i]
        invariant
            i <= a@.len(),
            i <= b@.len(),
            forall|j: int| 0 <= j < i ==> a@[j] == b@[j],
        decreases a@.len() - i,
    {
        i = i + 1;
    }
    if i < a.len() && i < b.len() {
        if a[i] < b[i] {
            assert(first_diff_smaller(a@, b@, i as int));
            true
        } else {
            assert forall|k: int| !first_diff_smaller(a@, b@, k) by {
                if first_diff_smaller(a@, b@, k) {
                    if k < i {
                        assert(a@[k] == b@[k]);
                    } else if k > i {
                        assert(a@[i as int] == b@[i as int]);
                    }
                }
            }
            false
        }
    } else {
        assert forall|k: int| !first_diff_smaller(a@, b@, k) by {
            if first_diff_smaller(a@, b@, k) {
                assert(a@[k] == b@[k]);
            }
        }
        i == a.len() && i < b.len()
    }
}

/// Checks that `key` lies in the region's range `[start_key, end_key)`,
/// where an empty end key means the range is unbounded above.
pub fn check_key_in_region(key: &[u8], region: &Region) -> (r: Result<(), Error>)
    ensures
        r.is_ok() <==> key_in_range(key@, region@.start_key, region@.end_key),
        r matches Err(Error::KeyNotInRegion(k, reg)) ==> k@ == key@ && reg@ == region@,
{
    let end_key = region.end_key.as_slice();
    let start_key = region.start_key.as_slice();
    if !key_lt(key, start_key) && (end_key.len() == 0 || key_lt(key, end_key)) {
        Ok(())
    } else {
        Err(Error::KeyNotInRegion(vstd::slice::slice_to_vec(key), region.snapshot()))
    }
}

/// No key sorts before itself.
pub proof fn lemma_key_less_irreflexive(a: Seq<u8>)
    ensures
        !key_less(a, a),
{
    assert forall|i: int| !first_diff_smaller(a, a, i) by {}
}

/// A region never holds its own non-empty end key.
pub proof fn lemma_end_key_not_in_region(start_key: Seq<u8>, end_key: Seq<u8>)
    requires
        end_key.len() > 0,
    ensures
        !key_in_range(end_key, start_key, end_key),
{
    lemma_key_less_irreflexive(end_key);
}

} // verus!
