//! Waveforms derived from a harmonic signal.

use vstd::prelude::*;
use crate::sample::Sample;

verus! {

/// The level of the square wave at a sample of the harmonic it is cut from:
/// one where the harmonic is above zero, zero elsewhere. A sample that is
/// exactly zero gives zero.
pub open spec fn clip(sample: Sample) -> u8 {
    if sample@.is_positive() {
        1
    } else {
        0
    }
}

/// The square wave of a whole harmonic, level by level.
pub open spec fn meander_of(harmonic: Seq<Sample>) -> Seq<u8> {
    Seq::new(harmonic.len(), |i: int| clip(harmonic[i]))
}

/// Cuts a square wave out of a harmonic signal by thresholding every sample
/// at zero. The result has one level per sample, at the same index; nothing
/// but the sign of the harmonic enters, so duty cycle and phase are whatever
/// the harmonic's samples give.
pub fn harmonic_to_meander(harmonic: &Vec<Sample>) -> (meander: Vec<u8>)
    ensures
        meander@ == meander_of(harmonic@),
        meander@.len() == harmonic@.len(),
        forall|i: int|
            #![trigger meander@[i]]
            0 <= i < harmonic@.len() ==> {
                &&& meander@[i] == 1 <==> harmonic@[i]@.is_positive()
                &&& meander@[i] == 0 <==> !harmonic@[i]@.is_positive()
            },
{
    let mut meander: Vec<u8> = Vec::new();
    let mut i: usize = 0;
    while i < harmonic.len()
        invariant
            i <= harmonic.len(),
            meander@ == meander_of(harmonic@.take(i as int)),
        decreases harmonic.len() - i,
    {
        let level: u8 = if harmonic[i].is_positive() { 1 } else { 0 };
        meander.push(level);
        i += 1;
        assert(meander@ =~= meander_of(harmonic@.take(i as int)));
    }
    assert(harmonic@.take(i as int) =~= harmonic@);
    meander
}

} // verus!
