//! Sample formats of recorded audio.

use vstd::prelude::*;

verus! {

/// Bits per sample of the recording written to disk.
pub const BITS_PER_SAMPLE: u16 = 16;

/// An unsigned 16-bit sample as a signed one: the value shifted down by 32768,
/// so that silence (32768) becomes 0.
pub fn u16_sample_to_i16(sample: u16) -> (r: i16)
    ensures
        r == sample - 32768,
{
    ((sample as i32) - 32768) as i16
}

/// The conversion keeps the order of samples and maps the range of `u16`
/// onto the whole range of `i16`.
pub proof fn lemma_sample_conversion_order(a: u16, b: u16)
    ensures
        a < b ==> a - 32768 < b - 32768,
        0u16 - 32768 == i16::MIN,
        u16::MAX - 32768 == i16::MAX,
{
}

} // verus!
