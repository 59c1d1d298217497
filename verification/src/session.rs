//! One playback session: the sample counts derived from the configuration and
//! the negotiated stream, the sample clock with its completion flag, and the
//! lifecycle the session moves through.  The hardware stream and the
//! real-time callback live outside the library; the callback asks
//! [`ToneSession::next_frame`] what each frame owes and the controller polls
//! the completion flag until the tone has run its course.

use vstd::prelude::*;

use crate::synth::{spec_frame, frame_at, Frame};
use crate::PlaybackError;

verus! {

/// Frames requested per hardware buffer, bounding callback latency.
pub const DEFAULT_BUFFER_FRAMES: u32 = 4096;

/// How often the controlling thread polls the completion flag, in
/// milliseconds.
pub const POLL_INTERVAL_MS: u64 = 100;

/// Grace period between observing completion and tearing the stream down, so
/// the final buffer finishes rendering, in milliseconds.
pub const DRAIN_DELAY_MS: u64 = 50;

/// Total samples of a tone: the duration in seconds times the sample rate,
/// saturating at the counter's ceiling.
pub open spec fn spec_total_samples(duration: int, rate: int) -> int {
    if duration * rate > u64::MAX {
        u64::MAX as int
    } else {
        duration * rate
    }
}

/// Fade samples of a tone: the fade duration in milliseconds times the sample
/// rate, scaled back to seconds and truncated, saturating at the counter's
/// ceiling.
pub open spec fn spec_fade_samples(fade_millis: int, rate: int) -> int {
    if fade_millis * rate / 1000 > u64::MAX {
        u64::MAX as int
    } else {
        fade_millis * rate / 1000
    }
}

/// The two sample counts a session is shaped by.
#[derive(Clone, Copy, Debug, PartialEq, Eq, Structural)]
pub struct SessionParams {
    pub total_samples: u64,
    pub fade_samples: u64,
}

/// Derive the session's sample counts from the configured durations and the
/// sample rate the device negotiated.
pub fn session_params(duration: u64, fade_millis: u64, sample_rate: u32) -> (p: SessionParams)
    ensures
        p.total_samples == spec_total_samples(duration as int, sample_rate as int),
        p.fade_samples == spec_fade_samples(fade_millis as int, sample_rate as int),
{
    proof {
        assert(duration * sample_rate < 0x10000_0000_0000_0000_0000_0000u128) by (nonlinear_arith)
            requires
                duration <= u64::MAX,
                sample_rate <= u32::MAX,
        ;
        assert(fade_millis * sample_rate < 0x10000_0000_0000_0000_0000_0000u128)
            by (nonlinear_arith)
            requires
                fade_millis <= u64::MAX,
                sample_rate <= u32::MAX,
        ;
    }
    let total_wide: u128 = duration as u128 * sample_rate as u128;
    let total_samples: u64 = if total_wide > u64::MAX as u128 {
        u64::MAX
    } else {
        total_wide as u64
    };
    let fade_wide: u128 = fade_millis as u128 * sample_rate as u128 / 1000;
    let fade_samples: u64 = if fade_wide > u64::MAX as u128 {
        u64::MAX
    } else {
        fade_wide as u64
    };
    SessionParams { total_samples, fade_samples }
}

/// The sample formats the adapter can serve; anything else the device might
/// negotiate is `Other` and aborts the session before a stream is opened.
#[derive(Clone, Copy, Debug, PartialEq, Eq, Structural)]
pub enum WireFormat {
    Float32,
    SignedInt16,
    UnsignedInt16,
    Other,
}

/// One playback session's shared counters: the sample clock, incremented
/// exactly once per output frame, and the completion flag, set once the clock
/// has passed the end of the tone and never cleared.
pub struct ToneSession {
    pub params: SessionParams,
    pub clock: u64,
    pub finished: bool,
}

impl ToneSession {
    /// A fresh session: clock at zero, completion flag clear.
    pub fn new(params: SessionParams) -> (s: ToneSession)
        ensures
            s.params == params,
            s.clock == 0,
            !s.finished,
    {
        ToneSession { params, clock: 0, finished: false }
    }

    /// Produce the command for the next output frame and advance the clock by
    /// exactly one.  Once the clock has reached the end of the tone the frame
    /// is silence and processing it leaves the completion flag set; setting
    /// the flag again on later frames is harmless.
    pub fn next_frame(&mut self) -> (f: Frame)
        requires
            old(self).clock < u64::MAX,
        ensures
            final(self).params == old(self).params,
            final(self).clock == old(self).clock + 1,
            f == spec_frame(
                old(self).clock as int,
                old(self).params.total_samples as int,
                old(self).params.fade_samples as int,
            ),
            final(self).finished == (old(self).finished || old(self).clock
                >= old(self).params.total_samples),
    {
        let n = self.clock;
        self.clock = n + 1;
        if n >= self.params.total_samples {
            self.finished = true;
            Frame::Silence
        } else {
            frame_at(n, self.params.total_samples, self.params.fade_samples)
        }
    }

    /// One callback invocation's worth of work: the frames owed for the next
    /// `count` sample indices, the clock advanced once per frame, and the
    /// completion flag set exactly when an index at or past the end of the
    /// tone was processed.
    pub fn fill_frames(&mut self, count: usize) -> (frames: Vec<Frame>)
        requires
            old(self).clock + count <= u64::MAX,
        ensures
            final(self).params == old(self).params,
            final(self).clock == old(self).clock + count,
            frames@.len() == count,
            forall|k: int|
                0 <= k < count ==> frames@[k] == spec_frame(
                    old(self).clock + k,
                    old(self).params.total_samples as int,
                    old(self).params.fade_samples as int,
                ),
            final(self).finished == (old(self).finished || (count > 0 && old(self).clock + count
                > old(self).params.total_samples)),
    {
        let mut frames: Vec<Frame> = Vec::new();
        let mut i: usize = 0;
        while i < count
            invariant
                old(self).clock + count <= u64::MAX,
                i <= count,
                self.params == old(self).params,
                self.clock == old(self).clock + i,
                frames@.len() == i,
                forall|k: int|
                    0 <= k < i ==> frames@[k] == spec_frame(
                        old(self).clock + k,
                        old(self).params.total_samples as int,
                        old(self).params.fade_samples as int,
                    ),
                self.finished == (old(self).finished || (i > 0 && old(self).clock + i
                    > old(self).params.total_samples)),
            decreases count - i,
        {
            let f = self.next_frame();
            frames.push(f);
            i = i + 1;
        }
        frames
    }
}

/// The opening step of a playback session: given the negotiated format and
/// the configured durations, either the initialized session or the error that
/// aborts before any stream is opened.
pub fn open_session(duration: u64, fade_millis: u64, sample_rate: u32, format: WireFormat) -> (r:
    Result<ToneSession, PlaybackError>)
    ensures
        match r {
            Ok(s) => format != WireFormat::Other && s.clock == 0 && !s.finished
                && s.params.total_samples == spec_total_samples(
                duration as int,
                sample_rate as int,
            ) && s.params.fade_samples == spec_fade_samples(fade_millis as int, sample_rate as int),
            Err(e) => format == WireFormat::Other && e == PlaybackError::UnsupportedFormat,
        },
{
    match format {
        WireFormat::Other => Err(PlaybackError::UnsupportedFormat),
        _ => Ok(ToneSession::new(session_params(duration, fade_millis, sample_rate))),
    }
}

/// The lifecycle of one playback session.
#[derive(Clone, Copy, Debug, PartialEq, Eq, Structural)]
pub enum SessionPhase {
    Idle,
    Opening,
    Playing,
    Draining,
    Closed,
}

/// What moves a session between phases.
#[derive(Clone, Copy, Debug, PartialEq, Eq, Structural)]
pub enum SessionEvent {
    /// The device resolved and the stream configuration was accepted.
    Opened,
    /// The hardware stream started.
    Started,
    /// The completion flag was observed true.
    Completed,
    /// The drain grace period elapsed and the stream was released.
    Drained,
    /// Any error: the session aborts, releasing what it had acquired.
    Failed,
}

/// The phase a session is in after an event.  Phases advance along
/// idle, opening, playing, draining, closed; a failure at any phase closes
/// the session, and a closed session never leaves that phase.
pub open spec fn spec_phase_after(p: SessionPhase, e: SessionEvent) -> SessionPhase {
    if e is Failed {
        SessionPhase::Closed
    } else {
        match p {
            SessionPhase::Idle => if e is Opened {
                SessionPhase::Opening
            } else {
                p
            },
            SessionPhase::Opening => if e is Started {
                SessionPhase::Playing
            } else {
                p
            },
            SessionPhase::Playing => if e is Completed {
                SessionPhase::Draining
            } else {
                p
            },
            SessionPhase::Draining => if e is Drained {
                SessionPhase::Closed
            } else {
                p
            },
            SessionPhase::Closed => SessionPhase::Closed,
        }
    }
}

/// Advance the session lifecycle by one event.
pub fn phase_after(p: SessionPhase, e: SessionEvent) -> (q: SessionPhase)
    ensures
        q == spec_phase_after(p, e),
{
    match e {
        SessionEvent::Failed => SessionPhase::Closed,
        _ => match p {
            SessionPhase::Idle => if matches!(e, SessionEvent::Opened) {
                SessionPhase::Opening
            } else {
                p
            },
            SessionPhase::Opening => if matches!(e, SessionEvent::Started) {
                SessionPhase::Playing
            } else {
                p
            },
            SessionPhase::Playing => if matches!(e, SessionEvent::Completed) {
                SessionPhase::Draining
            } else {
                p
            },
            SessionPhase::Draining => if matches!(e, SessionEvent::Drained) {
                SessionPhase::Closed
            } else {
                p
            },
            SessionPhase::Closed => SessionPhase::Closed,
        },
    }
}

/// A closed session is final: no event reopens it.
pub proof fn lemma_closed_is_final(e: SessionEvent)
    ensures
        spec_phase_after(SessionPhase::Closed, e) is Closed,
{
}

} // verus!
