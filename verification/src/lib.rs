//! Locating the first maximum element of a slice, and the largest byte
//! alignment among a fixed set of primitive numeric types.
//!
//! Floating-point types cannot be named in verified code, so the alignment of
//! the platform's double-precision floating-point type enters [`max_align`] as
//! a plain argument; an unverified shim can fetch it and pass it in.

use vstd::prelude::*;

verus! {

use vstd::arithmetic::power2::is_pow2;
use vstd::layout::align_of;

/// `i` is a position of a maximum value of `s`.
pub open spec fn is_max_index(s: Seq<usize>, i: int) -> bool {
    &&& 0 <= i < s.len()
    &&& forall|j: int| 0 <= j < s.len() ==> s[j] <= s[i]
}

/// `i` is the first position of the maximum value of `s`: it holds the
/// maximum, and every earlier element is strictly smaller.
pub open spec fn is_first_max_index(s: Seq<usize>, i: int) -> bool {
    &&& is_max_index(s, i)
    &&& forall|j: int| 0 <= j < i ==> s[j] < s[i]
}

/// Among the positions that hold the maximum, the first one is the least:
/// any position of a maximum value lies at or after it.
pub proof fn lemma_first_max_index_is_least(s: Seq<usize>, i: int, j: int)
    requires
        is_first_max_index(s, i),
        is_max_index(s, j),
    ensures
        i <= j,
{
    if j < i {
        assert(s[j] < s[i]);
        assert(s[i] <= s[j]);
    }
}

/// Single-element law: for a one-element sequence the first maximum position
/// is 0, whatever the element is.
pub proof fn lemma_single_element_first_max(s: Seq<usize>, i: int)
    requires
        s.len() == 1,
        is_first_max_index(s, i),
    ensures
        i == 0,
{
}

/// Returns the index of the maximum value in a slice of usize values.
/// If several positions hold the maximum, the earliest one is returned.
pub fn max_pos_usize(arr: &[usize]) -> (r: usize)
    requires
        arr@.len() > 0,
    ensures
        is_first_max_index(arr@, r as int),
{
    let mut max_index: usize = 0;
    let mut i: usize = 0;
    while i < arr.len()
        invariant
            0 < arr@.len(),
            i <= arr@.len(),
            max_index < arr@.len(),
            forall|j: int| 0 <= j < i ==> arr@[j] <= arr@[max_index as int],
            forall|j: int| 0 <= j < max_index ==> arr@[j] < arr@[max_index as int],
        decreases arr@.len() - i,
    {
        if arr[i] > arr[max_index] {
            max_index = i;
        }
        i += 1;
    }
    max_index
}

/// The greatest of three natural numbers.
pub open spec fn max_of_three(a: nat, b: nat, c: nat) -> nat {
    if a >= b && a >= c {
        a
    } else if b >= c {
        b
    } else {
        c
    }
}

/// Returns the maximum alignment of three primitive types: `usize`, `u128`,
/// and the double-precision floating-point type, whose alignment the caller
/// passes in as `double_align` (every platform alignment is a power of two).
/// May not be the maximum possible alignment of all types.
pub fn max_align(double_align: usize) -> (r: usize)
    ensures
        r as nat == max_of_three(align_of::<usize>(), align_of::<u128>(), double_align as nat),
        is_pow2(double_align as int) ==> is_pow2(r as int),
        double_align <= r,
{
    let aligns: [usize; 3] = [
        core::mem::align_of::<usize>(),
        core::mem::align_of::<u128>(),
        double_align,
    ];
    let r = aligns[max_pos_usize(aligns.as_slice())];
    proof {
        broadcast use vstd::layout::align_properties;

        assert(is_pow2(align_of::<usize>() as int));
        assert(is_pow2(align_of::<u128>() as int));
    }
    r
}

} // verus!
