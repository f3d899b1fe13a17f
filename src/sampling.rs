//! Median filtering of raw sensor samples.

use vstd::prelude::*;

verus! {

pub open spec fn sorted_ascending(s: Seq<u16>) -> bool {
    forall|i: int, j: int| 0 <= i <= j < s.len() ==> s[i] <= s[j]
}

/// Relies on slice::sort_unstable: afterwards the slice holds the same values,
/// ascending.
#[verifier::external_body]
fn sort_samples(samples: &mut [u16])
    ensures
        sorted_ascending(final(samples)@),
        final(samples)@.to_multiset() == old(samples)@.to_multiset(),
{
    samples.sort_unstable();
}

/// Median of ascending samples: the middle one, or the truncated mean of the two
/// middle ones for an even count.
pub open spec fn median_spec(s: Seq<u16>) -> int {
    let n = s.len() as int;
    if n % 2 == 0 {
        (s[n / 2] as int + s[n / 2 - 1] as int) / 2
    } else {
        s[n / 2] as int
    }
}

/// Sorts the samples and returns their median.
pub fn compute_median(samples: &mut [u16]) -> (r: u16)
    requires
        old(samples)@.len() > 0,
    ensures
        sorted_ascending(final(samples)@),
        final(samples)@.to_multiset() == old(samples)@.to_multiset(),
        r == median_spec(final(samples)@),
{
    sort_samples(samples);
    proof {
        assert(samples@.len() == old(samples)@.len()) by {
            samples@.to_multiset_ensures();
            old(samples)@.to_multiset_ensures();
        }
    }
    let len = samples.len();
    if len % 2 == 0 {
        let right_mid = samples[len / 2] as u32;
        let left_mid = samples[len / 2 - 1] as u32;
        ((right_mid + left_mid) / 2) as u16
    } else {
        samples[len / 2]
    }
}

} // verus!
