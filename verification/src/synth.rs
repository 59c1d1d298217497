//! The sample synthesizer's exact skeleton: which region of the fade envelope
//! a sample index falls in, and the envelope's value there as a rational
//! number.  The sine oscillator itself runs outside the library; it multiplies
//! the raw sine value by `env_num / env_den` and by the configured gain.

use vstd::prelude::*;

verus! {

/// Numerator of the fade envelope at sample index `n`.  The regions are tried
/// in this order, mirroring the synthesizer's piecewise formula: the ramp-in
/// rule wins wherever it applies, so a fade longer than the whole tone keeps
/// every index on the rising ramp.
pub open spec fn env_num(n: int, total: int, fade: int) -> int {
    if n < fade {
        n
    } else if n > total - fade {
        total - n
    } else {
        1
    }
}

/// Denominator of the fade envelope at sample index `n`.
pub open spec fn env_den(n: int, total: int, fade: int) -> int {
    if n < fade {
        fade
    } else if n > total - fade {
        fade
    } else {
        1
    }
}

/// What one output frame holds: silence once the sample clock has passed the
/// end of the tone, otherwise a sine sample scaled by the exact envelope
/// `env_num / env_den`.
#[derive(Clone, Copy, Debug, PartialEq, Eq, Structural)]
pub enum Frame {
    Silence,
    Tone { env_num: u64, env_den: u64 },
}

/// The frame owed at sample index `n` of a tone of `total` samples with
/// `fade` ramp samples at either end.
pub open spec fn spec_frame(n: int, total: int, fade: int) -> Frame {
    if n >= total {
        Frame::Silence
    } else {
        Frame::Tone {
            env_num: env_num(n, total, fade) as u64,
            env_den: env_den(n, total, fade) as u64,
        }
    }
}

/// Compute the frame owed at sample index `n`.  A tone frame always carries a
/// positive denominator and an envelope no greater than one.
pub fn frame_at(n: u64, total: u64, fade: u64) -> (f: Frame)
    ensures
        f == spec_frame(n as int, total as int, fade as int),
        (f matches Frame::Tone { env_num, env_den } ==> 0 < env_den && env_num <= env_den),
{
    if n >= total {
        Frame::Silence
    } else if n < fade {
        Frame::Tone { env_num: n, env_den: fade }
    } else if n > total - fade {
        Frame::Tone { env_num: total - n, env_den: fade }
    } else {
        Frame::Tone { env_num: 1, env_den: 1 }
    }
}

/// The envelope starts at exactly zero: at sample index zero of any tone with
/// a ramp, the numerator is zero.
pub proof fn lemma_envelope_starts_at_zero(total: int, fade: int)
    requires
        0 < fade,
    ensures
        env_num(0, total, fade) == 0,
        env_den(0, total, fade) == fade,
{
}

/// The envelope ends at exactly zero: at the final sample index of any tone
/// whose ramp fits inside it, the numerator is zero.
pub proof fn lemma_envelope_ends_at_zero(total: int, fade: int)
    requires
        0 < fade <= total,
    ensures
        env_num(total, total, fade) == 0,
        env_den(total, total, fade) == fade,
{
}

/// Ramp-in law: on the rising ramp the envelope is strictly increasing from
/// one sample index to the next.
pub proof fn lemma_fade_in(total: int, fade: int, n1: int, n2: int)
    requires
        0 < fade,
        0 <= n1 < n2 < fade,
    ensures
        env_den(n1, total, fade) == fade && env_den(n2, total, fade) == fade,
        env_num(n1, total, fade) * env_den(n2, total, fade) < env_num(n2, total, fade) * env_den(
            n1,
            total,
            fade,
        ),
{
    assert(n1 * fade < n2 * fade) by (nonlinear_arith)
        requires
            n1 < n2,
            0 < fade,
    ;
}

/// Ramp-out law: on the falling ramp the envelope is strictly decreasing from
/// one sample index to the next.  Indices that the rising ramp claims first
/// are excluded, as is a fade longer than the tone.
pub proof fn lemma_fade_out(total: int, fade: int, n1: int, n2: int)
    requires
        0 < fade <= total,
        total - fade < n1 < n2 <= total,
        fade <= n1,
    ensures
        env_den(n1, total, fade) == fade && env_den(n2, total, fade) == fade,
        env_num(n1, total, fade) * env_den(n2, total, fade) > env_num(n2, total, fade) * env_den(
            n1,
            total,
            fade,
        ),
{
    assert((total - n1) * fade > (total - n2) * fade) by (nonlinear_arith)
        requires
            n1 < n2,
            0 < fade,
    ;
}

/// Past the end of the tone every frame is silence.
pub proof fn lemma_silence_after_end(n: int, total: int, fade: int)
    requires
        n >= total,
    ensures
        spec_frame(n, total, fade) is Silence,
{
}

} // verus!
