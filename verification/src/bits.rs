//! Helpers for vectors of IEEE 754 bit patterns.
//!
//! The session stores every floating-point quantity as its bit pattern
//! (`u32` for 32-bit floats, `u64` for 64-bit floats) and never computes
//! with it, so copying is the only operation these vectors need.

use vstd::prelude::*;

verus! {

/// The contents of an optional bounds or coordinate vector, as an
/// optional sequence.
pub open spec fn opt_bits_view(v: Option<Vec<u32>>) -> Option<Seq<u32>> {
    match v {
        None => None,
        Some(b) => Some(b@),
    }
}

/// Copy a vector of 32-bit patterns element by element.
pub fn copy_bits32(v: &Vec<u32>) -> (r: Vec<u32>)
    ensures
        r@ == v@,
{
    let mut out: Vec<u32> = Vec::new();
    let mut i: usize = 0;
    while i < v.len()
        invariant
            i <= v.len(),
            out@ == v@.take(i as int),
        decreases v.len() - i,
    {
        out.push(v[i]);
        i = i + 1;
        proof {
            assert(out@ =~= v@.take(i as int));
        }
    }
    proof {
        assert(v@.take(v@.len() as int) =~= v@);
    }
    out
}

/// Copy an optional vector of 32-bit patterns.
pub fn copy_opt_bits32(v: &Option<Vec<u32>>) -> (r: Option<Vec<u32>>)
    ensures
        opt_bits_view(r) == opt_bits_view(*v),
{
    match v {
        None => None,
        Some(b) => Some(copy_bits32(b)),
    }
}

} // verus!
