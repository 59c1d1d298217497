//! The format adapter: one synthesized sample per frame, replicated across
//! every channel of the frame and converted to the wire format the device
//! negotiated.  The library holds samples in fixed point — `raw` twenty-four
//! fractional bits deep, confined to the unit range — so each conversion is
//! exact integer arithmetic: a pure function of the sample alone.

use vstd::prelude::*;

verus! {

/// One whole in fixed-point sample units: two to the twenty-fourth.
pub const SAMPLE_SCALE: i32 = 16777216;

/// A sample as the fixed-point value `raw / SAMPLE_SCALE`.
#[derive(Clone, Copy, Debug, PartialEq, Eq, Structural)]
pub struct Sample {
    pub raw: i32,
}

impl Sample {
    /// The sample lies in the unit range [-1, 1].
    pub open spec fn wf(self) -> bool {
        -SAMPLE_SCALE <= self.raw <= SAMPLE_SCALE
    }

    /// The exactly silent sample.
    pub fn zero() -> (s: Sample)
        ensures
            s.raw == 0,
            s.wf(),
    {
        Sample { raw: 0 }
    }
}

/// Signed 16-bit wire value of a sample: the sample scaled by the largest
/// signed 16-bit value, truncated toward zero.
pub open spec fn spec_to_i16(raw: int) -> int {
    if raw >= 0 {
        raw * 32767 / (SAMPLE_SCALE as int)
    } else {
        -((-raw) * 32767 / (SAMPLE_SCALE as int))
    }
}

/// Unsigned 16-bit wire value of a sample: the unit range shifted onto
/// [0, 1] and scaled by the largest unsigned 16-bit value, truncated.
pub open spec fn spec_to_u16(raw: int) -> int {
    (raw + SAMPLE_SCALE) * 65535 / (2 * SAMPLE_SCALE as int)
}

/// Convert a sample to its signed 16-bit wire value.
pub fn sample_to_i16(s: Sample) -> (r: i16)
    requires
        s.wf(),
    ensures
        r == spec_to_i16(s.raw as int),
{
    if s.raw >= 0 {
        let prod: u64 = (s.raw as u64) * 32767;
        proof {
            assert(prod / (SAMPLE_SCALE as u64) <= 32767) by (nonlinear_arith)
                requires
                    prod == s.raw * 32767,
                    0 <= s.raw <= SAMPLE_SCALE,
            ;
        }
        (prod / (SAMPLE_SCALE as u64)) as i16
    } else {
        let mag: i32 = -s.raw;
        let prod: u64 = (mag as u64) * 32767;
        proof {
            assert(prod / (SAMPLE_SCALE as u64) <= 32767) by (nonlinear_arith)
                requires
                    prod == mag * 32767,
                    0 <= mag <= SAMPLE_SCALE,
            ;
        }
        -((prod / (SAMPLE_SCALE as u64)) as i16)
    }
}

/// Convert a sample to its unsigned 16-bit wire value.
pub fn sample_to_u16(s: Sample) -> (r: u16)
    requires
        s.wf(),
    ensures
        r == spec_to_u16(s.raw as int),
{
    let shifted: u64 = (s.raw + SAMPLE_SCALE) as u64;
    let prod: u64 = shifted * 65535;
    proof {
        assert(prod as int / (2 * SAMPLE_SCALE as int) <= 65535) by (nonlinear_arith)
            requires
                prod == shifted * 65535,
                0 <= shifted <= 2 * SAMPLE_SCALE,
        ;
    }
    (prod / (2 * SAMPLE_SCALE as u64)) as u16
}

/// Fill one frame of the output buffer: the same wire value written to every
/// channel slot, since the tone is monophonic.
pub fn replicate_frame<T: Copy>(value: T, channels: usize) -> (frame: Vec<T>)
    ensures
        frame@.len() == channels,
        forall|i: int| 0 <= i < channels ==> frame@[i] == value,
{
    let mut frame: Vec<T> = Vec::new();
    let mut c: usize = 0;
    while c < channels
        invariant
            c <= channels,
            frame@.len() == c,
            forall|i: int| 0 <= i < c ==> frame@[i] == value,
        decreases channels - c,
    {
        frame.push(value);
        c = c + 1;
    }
    frame
}

/// Mid-scale law: the exactly silent sample converts to exact zero on the
/// signed wire and to 32767 — the lower of the two mid-scale values, since
/// the scale truncates — on the unsigned wire.
pub proof fn lemma_zero_is_mid_scale()
    ensures
        spec_to_i16(0) == 0,
        spec_to_u16(0) == 32767,
{
    assert(16777216 * 65535 == 1099494850560int) by (nonlinear_arith);
    assert(1099494850560int / 33554432 == 32767) by (nonlinear_arith);
    assert((0 + SAMPLE_SCALE as int) * 65535 == 1099494850560int);
    assert(2 * SAMPLE_SCALE as int == 33554432);
}

/// Purity law: the adapter has no hidden state, so converting the same sample
/// twice yields the same wire value both times.
pub proof fn lemma_adapter_pure(a: Sample, b: Sample)
    requires
        a.raw == b.raw,
    ensures
        spec_to_i16(a.raw as int) == spec_to_i16(b.raw as int),
        spec_to_u16(a.raw as int) == spec_to_u16(b.raw as int),
{
}

} // verus!
