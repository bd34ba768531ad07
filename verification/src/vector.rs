//! Vectors of 32-bit words: created with a length that never changes, and
//! read, written and filled in place.

use vstd::prelude::*;

verus! {

/// A vector of `n` words, all zero.
pub open spec fn zeros(n: nat) -> Seq<u32> {
    Seq::new(n, |i: int| 0u32)
}

/// A vector of `n` words, all `fill`.
pub open spec fn filled(n: nat, fill: u32) -> Seq<u32> {
    Seq::new(n, |i: int| fill)
}

/// A new vector of `k` words, all zero.
pub fn make_vector(k: u32) -> (vec: Box<Vec<u32>>)
    ensures
        vec@ == zeros(k as nat),
        vec@.len() == k,
        forall|i: int| 0 <= i < k ==> vec@[i] == 0,
{
    let vec = vec![0u32; k as usize];
    Box::new(vec)
}

/// The number of words in the vector.
pub fn vector_length(vec: &Vec<u32>) -> (k: u32)
    requires
        vec@.len() <= u32::MAX,
    ensures
        k == vec@.len(),
{
    vec.len() as u32
}

/// The word at index `k`.
pub fn vector_ref(vec: &Vec<u32>, k: u32) -> (obj: u32)
    requires
        k < vec@.len(),
    ensures
        obj == vec@[k as int],
{
    vec[k as usize]
}

/// Writes `obj` at index `k` and returns it. No other word changes.
pub fn vector_set(vec: &mut Vec<u32>, k: u32, obj: u32) -> (written: u32)
    requires
        k < old(vec)@.len(),
    ensures
        final(vec)@ == old(vec)@.update(k as int, obj),
        written == obj,
{
    vec[k as usize] = obj;
    obj
}

/// Writes `fill` at every index and returns it. The length stays.
pub fn vector_fill(vec: &mut Vec<u32>, fill: u32) -> (written: u32)
    ensures
        final(vec)@ == filled(old(vec)@.len(), fill),
        final(vec)@.len() == old(vec)@.len(),
        forall|i: int| 0 <= i < final(vec)@.len() ==> final(vec)@[i] == fill,
        written == fill,
{
    let n = vec.len();
    let mut i: usize = 0;
    while i < n
        invariant
            i <= n,
            vec@.len() == n,
            forall|j: int| 0 <= j < i ==> vec@[j] == fill,
        decreases n - i,
    {
        vec[i] = fill;
        i += 1;
    }
    fill
}

/// Releases an owned vector. The result is always 0.
pub fn drop_vector(vec: Box<Vec<u32>>) -> (status: u32)
    ensures
        status == 0,
{
    let _ = vec;
    0
}

} // verus!
