//! The reference summation the engine is expected to perform.
//!
//! The secure engine sums all secret contributions without disclosing
//! them; this module states that computation over plain values, as the
//! template the engine's circuit follows.  The sum is taken with
//! wraparound semantics over the fixed 32-bit contribution domain: that
//! choice is this library's documented resolution of what happens when
//! the total exceeds the 32-bit range.

use vstd::prelude::*;

verus! {

/// The wraparound sum of a sequence of 32-bit contributions.
pub open spec fn wrapping_sum(values: Seq<u32>) -> u32
    decreases values.len(),
{
    if values.len() == 0 {
        0u32
    } else {
        vstd::wrapping::u32_specs::wrapping_add(wrapping_sum(values.drop_last()), values.last())
    }
}

/// Sums all contributions with wraparound semantics.  This is the
/// computation the engine runs inside the secure domain; over disclosed
/// values it serves as the reference for what the disclosed aggregate
/// must be.
pub fn zk_compute(inputs: &Vec<u32>) -> (sum: u32)
    ensures
        sum == wrapping_sum(inputs@),
{
    let mut sum: u32 = 0;
    let mut i: usize = 0;
    while i < inputs.len()
        invariant
            i <= inputs@.len(),
            sum == wrapping_sum(inputs@.take(i as int)),
        decreases inputs@.len() - i,
    {
        proof {
            assert(inputs@.take(i + 1).drop_last() =~= inputs@.take(i as int));
            assert(inputs@.take(i + 1).last() == inputs@[i as int]);
        }
        sum = sum.wrapping_add(inputs[i]);
        i = i + 1;
    }
    proof {
        assert(inputs@.take(inputs@.len() as int) =~= inputs@);
    }
    sum
}

} // verus!
