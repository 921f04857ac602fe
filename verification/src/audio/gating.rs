use vstd::prelude::*;

verus! {

/// What a gate lets through of `samples`: the samples themselves when it
/// passes, the same number of `silence` samples when it does not.
pub open spec fn gated<T>(samples: Seq<T>, pass: bool, silence: T) -> Seq<T> {
    if pass {
        samples
    } else {
        Seq::new(samples.len(), |i: int| silence)
    }
}

/// Append what the speaker gate lets through of `samples` to `dst`.
pub fn extend_gated<T: Copy>(dst: &mut Vec<T>, samples: &[T], pass: bool, silence: T)
    ensures
        final(dst)@ == old(dst)@ + gated(samples@, pass, silence),
{
    let ghost before = dst@;
    let n = samples.len();
    let mut i: usize = 0;
    while i < n
        invariant
            n == samples@.len(),
            i <= n,
            dst@ == before + gated(samples@, pass, silence).subrange(0, i as int),
        decreases n - i,
    {
        if pass {
            dst.push(samples[i]);
        } else {
            dst.push(silence);
        }
        i = i + 1;
        assert(gated(samples@, pass, silence).subrange(0, i as int) =~= gated(samples@, pass, silence).subrange(
            0,
            i - 1 as int,
        ).push(gated(samples@, pass, silence)[i - 1]));
    }
    assert(gated(samples@, pass, silence).subrange(0, n as int) =~= gated(samples@, pass, silence));
}

/// A copy of what the speaker gate lets through of `samples`.
pub fn gated_copy<T: Copy>(samples: &[T], pass: bool, silence: T) -> (r: Vec<T>)
    ensures
        r@ == gated(samples@, pass, silence),
{
    let mut r: Vec<T> = Vec::with_capacity(samples.len());
    extend_gated(&mut r, samples, pass, silence);
    assert(Seq::<T>::empty() + gated(samples@, pass, silence) =~= gated(samples@, pass, silence));
    r
}

} // verus!
