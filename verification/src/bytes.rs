//! Small byte-vector helpers shared by the devices.

use vstd::prelude::*;

verus! {

/// A zero-filled byte vector of the given length.
pub fn make_zero_vec(n: usize) -> (r: Vec<u8>)
    ensures
        r@ == Seq::<u8>::new(n as nat, |i: int| 0u8),
{
    make_filled_vec(n, 0)
}

/// A byte vector of the given length with every byte equal.
pub fn make_filled_vec(n: usize, b: u8) -> (r: Vec<u8>)
    ensures
        r@ == Seq::<u8>::new(n as nat, |i: int| b),
{
    let mut r: Vec<u8> = Vec::new();
    let mut i: usize = 0;
    while i < n
        invariant
            i <= n,
            r@ == Seq::<u8>::new(i as nat, |j: int| b),
        decreases n - i,
    {
        r.push(b);
        i = i + 1;
        proof {
            assert(r@ =~= Seq::<u8>::new(i as nat, |j: int| b));
        }
    }
    r
}

/// A copy of a byte vector.
pub fn clone_bytes(v: &Vec<u8>) -> (r: Vec<u8>)
    ensures
        r@ == v@,
{
    let mut r: Vec<u8> = Vec::new();
    let mut i: usize = 0;
    while i < v.len()
        invariant
            i <= v.len(),
            r@ == v@.subrange(0, i as int),
        decreases v.len() - i,
    {
        r.push(v[i]);
        i = i + 1;
        proof {
            assert(r@ =~= v@.subrange(0, i as int));
        }
    }
    proof {
        assert(r@ =~= v@);
    }
    r
}

} // verus!
