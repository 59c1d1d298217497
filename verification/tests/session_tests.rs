use wake_speaker::session::{
    open_session, phase_after, session_params, SessionEvent, SessionParams, SessionPhase,
    ToneSession, WireFormat, DEFAULT_BUFFER_FRAMES, DRAIN_DELAY_MS, POLL_INTERVAL_MS,
};
use wake_speaker::synth::Frame;
use wake_speaker::PlaybackError;

#[test]
fn unsupported_format_aborts_before_any_stream() {
    let r = open_session(15, 1000, 48000, WireFormat::Other);
    assert_eq!(r.err(), Some(PlaybackError::UnsupportedFormat));
}

#[test]
fn supported_formats_open_a_fresh_session() {
    for format in [WireFormat::Float32, WireFormat::SignedInt16, WireFormat::UnsignedInt16] {
        let s = open_session(15, 1000, 48000, format).expect("format is supported");
        assert_eq!(s.clock, 0);
        assert!(!s.finished);
        assert_eq!(s.params.total_samples, 720000);
        assert_eq!(s.params.fade_samples, 48000);
    }
}

#[test]
fn sample_counts_follow_the_rate() {
    let p = session_params(2, 500, 44100);
    assert_eq!(p.total_samples, 88200);
    assert_eq!(p.fade_samples, 22050);
    // A fade of 333 ms truncates.
    let q = session_params(1, 333, 1000);
    assert_eq!(q.fade_samples, 333);
    let r = session_params(1, 333, 10);
    assert_eq!(r.fade_samples, 3);
}

#[test]
fn sample_counts_saturate() {
    let p = session_params(u64::MAX, 0, 48000);
    assert_eq!(p.total_samples, u64::MAX);
    assert_eq!(p.fade_samples, 0);
}

#[test]
fn clock_advances_once_per_frame() {
    let mut s = ToneSession::new(SessionParams { total_samples: 4, fade_samples: 2 });
    assert_eq!(s.next_frame(), Frame::Tone { env_num: 0, env_den: 2 });
    assert_eq!(s.next_frame(), Frame::Tone { env_num: 1, env_den: 2 });
    assert_eq!(s.next_frame(), Frame::Tone { env_num: 1, env_den: 1 });
    assert_eq!(s.next_frame(), Frame::Tone { env_num: 1, env_den: 2 });
    assert_eq!(s.clock, 4);
    assert!(!s.finished);
}

#[test]
fn completion_flag_sets_on_the_frame_past_the_end() {
    let mut s = ToneSession::new(SessionParams { total_samples: 2, fade_samples: 0 });
    s.next_frame();
    s.next_frame();
    assert!(!s.finished);
    // The first frame at or past the end is silent and sets the flag; later
    // frames set it again, harmlessly.
    assert_eq!(s.next_frame(), Frame::Silence);
    assert!(s.finished);
    assert_eq!(s.next_frame(), Frame::Silence);
    assert!(s.finished);
    assert_eq!(s.clock, 4);
}

#[test]
fn buffers_fill_frame_by_frame() {
    let mut s = ToneSession::new(SessionParams { total_samples: 4, fade_samples: 2 });
    let first = s.fill_frames(3);
    assert_eq!(
        first,
        vec![
            Frame::Tone { env_num: 0, env_den: 2 },
            Frame::Tone { env_num: 1, env_den: 2 },
            Frame::Tone { env_num: 1, env_den: 1 },
        ]
    );
    assert_eq!(s.clock, 3);
    assert!(!s.finished);
    // The next buffer crosses the end of the tone: the tail is silence and
    // the completion flag is set.
    let second = s.fill_frames(3);
    assert_eq!(
        second,
        vec![Frame::Tone { env_num: 1, env_den: 2 }, Frame::Silence, Frame::Silence]
    );
    assert_eq!(s.clock, 6);
    assert!(s.finished);
    // An empty buffer changes nothing.
    let none = s.fill_frames(0);
    assert!(none.is_empty());
    assert_eq!(s.clock, 6);
}

#[test]
fn lifecycle_advances_through_the_phases() {
    let mut p = SessionPhase::Idle;
    p = phase_after(p, SessionEvent::Opened);
    assert_eq!(p, SessionPhase::Opening);
    p = phase_after(p, SessionEvent::Started);
    assert_eq!(p, SessionPhase::Playing);
    p = phase_after(p, SessionEvent::Completed);
    assert_eq!(p, SessionPhase::Draining);
    p = phase_after(p, SessionEvent::Drained);
    assert_eq!(p, SessionPhase::Closed);
}

#[test]
fn failure_closes_from_any_phase() {
    for p in [
        SessionPhase::Idle,
        SessionPhase::Opening,
        SessionPhase::Playing,
        SessionPhase::Draining,
        SessionPhase::Closed,
    ] {
        assert_eq!(phase_after(p, SessionEvent::Failed), SessionPhase::Closed);
    }
}

#[test]
fn closed_is_final_and_odd_events_do_not_advance() {
    assert_eq!(phase_after(SessionPhase::Closed, SessionEvent::Opened), SessionPhase::Closed);
    assert_eq!(phase_after(SessionPhase::Idle, SessionEvent::Completed), SessionPhase::Idle);
    assert_eq!(phase_after(SessionPhase::Playing, SessionEvent::Drained), SessionPhase::Playing);
}

#[test]
fn pacing_constants_match_the_design() {
    assert_eq!(DEFAULT_BUFFER_FRAMES, 4096);
    assert_eq!(POLL_INTERVAL_MS, 100);
    assert_eq!(DRAIN_DELAY_MS, 50);
}
