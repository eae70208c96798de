//! Small executable helpers on word vectors.

use vstd::prelude::*;

verus! {

/// Copies a state vector.
pub fn clone_words(z: &Vec<u64>) -> (r: Vec<u64>)
    ensures
        r@ == z@,
{
    let mut out: Vec<u64> = Vec::new();
    let mut i: usize = 0;
    while i < z.len()
        invariant
            i <= z@.len(),
            out@ == z@.subrange(0, i as int),
        decreases z@.len() - i,
    {
        out.push(z[i]);
        i = i + 1;
        proof {
            assert(out@ =~= z@.subrange(0, i as int));
        }
    }
    proof {
        assert(out@ =~= z@);
    }
    out
}

/// Compares two state vectors for equality.
pub fn words_equal(a: &Vec<u64>, b: &Vec<u64>) -> (r: bool)
    ensures
        r <==> a@ == b@,
{
    if a.len() != b.len() {
        return false;
    }
    let mut i: usize = 0;
    while i < a.len()
        invariant
            i <= a@.len(),
            a@.len() == b@.len(),
            forall|j: int| 0 <= j < i ==> a@[j] == b@[j],
        decreases a@.len() - i,
    {
        if a[i] != b[i] {
            return false;
        }
        i = i + 1;
    }
    proof {
        assert(a@ =~= b@);
    }
    true
}

} // verus!
