//! Breeding engine: combines two parent genomes into a child genome.
//!
//! A genome is a fixed-size 16-byte value. Breeding is a per-bit choice
//! driven by a selector mask: each bit of the child comes from the first
//! parent where the corresponding selector bit is 1, and from the second
//! parent where it is 0. The combination is a pure function of its inputs,
//! so replaying the same operation yields the same child.

use vstd::prelude::*;

verus! {

/// One byte of a child genome: bits of `a` where `s` has a 1 bit,
/// bits of `b` where `s` has a 0 bit.
pub open spec fn child_byte(s: u8, a: u8, b: u8) -> u8 {
    (s & a) | (!s & b)
}

/// Combine two parent genomes under a selector mask, bit by bit.
pub fn child_genome(selector: &[u8; 16], a: &[u8; 16], b: &[u8; 16]) -> (child: [u8; 16])
    ensures
        forall|i: int| 0 <= i < 16 ==> child@[i] == child_byte(selector@[i], a@[i], b@[i]),
{
    let mut child: [u8; 16] = [0u8; 16];
    let mut i: usize = 0;
    while i < 16
        invariant
            i <= 16,
            forall|j: int| 0 <= j < i ==> child@[j] == child_byte(selector@[j], a@[j], b@[j]),
        decreases 16 - i,
    {
        child[i] = (selector[i] & a[i]) | (!selector[i] & b[i]);
        i = i + 1;
    }
    child
}

} // verus!
