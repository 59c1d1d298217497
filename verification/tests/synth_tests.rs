use wake_speaker::session::session_params;
use wake_speaker::synth::{frame_at, Frame};

#[test]
fn envelope_starts_at_zero() {
    let f = frame_at(0, 720000, 48000);
    assert_eq!(f, Frame::Tone { env_num: 0, env_den: 48000 });
}

#[test]
fn envelope_rises_strictly_on_fade_in() {
    let mut prev = 0u64;
    for n in 1..100u64 {
        match frame_at(n, 720000, 48000) {
            Frame::Tone { env_num, env_den } => {
                assert_eq!(env_den, 48000);
                assert!(env_num > prev);
                prev = env_num;
            }
            Frame::Silence => panic!("tone expected inside the fade-in"),
        }
    }
}

#[test]
fn envelope_is_one_between_fades() {
    assert_eq!(frame_at(48000, 720000, 48000), Frame::Tone { env_num: 1, env_den: 1 });
    assert_eq!(frame_at(360000, 720000, 48000), Frame::Tone { env_num: 1, env_den: 1 });
    assert_eq!(frame_at(672000, 720000, 48000), Frame::Tone { env_num: 1, env_den: 1 });
}

#[test]
fn envelope_falls_strictly_on_fade_out() {
    // Just past the fade-out boundary the numerator is fade - 1 and it then
    // falls by one per sample, reaching 1 at the final sample index.
    assert_eq!(frame_at(672001, 720000, 48000), Frame::Tone { env_num: 47999, env_den: 48000 });
    assert_eq!(frame_at(672002, 720000, 48000), Frame::Tone { env_num: 47998, env_den: 48000 });
    assert_eq!(frame_at(719999, 720000, 48000), Frame::Tone { env_num: 1, env_den: 48000 });
}

#[test]
fn silence_at_and_after_total() {
    assert_eq!(frame_at(720000, 720000, 48000), Frame::Silence);
    assert_eq!(frame_at(720001, 720000, 48000), Frame::Silence);
    assert_eq!(frame_at(u64::MAX, 720000, 48000), Frame::Silence);
}

#[test]
fn ramp_in_wins_where_fades_overlap() {
    // A fade longer than half the tone is evaluated literally: the ramp-in
    // rule claims every index it covers before the ramp-out rule is tried.
    assert_eq!(frame_at(3, 10, 8), Frame::Tone { env_num: 3, env_den: 8 });
    assert_eq!(frame_at(7, 10, 8), Frame::Tone { env_num: 7, env_den: 8 });
    assert_eq!(frame_at(8, 10, 8), Frame::Tone { env_num: 2, env_den: 8 });
    assert_eq!(frame_at(9, 10, 8), Frame::Tone { env_num: 1, env_den: 8 });
}

#[test]
fn zero_fade_means_constant_envelope() {
    assert_eq!(frame_at(0, 10, 0), Frame::Tone { env_num: 1, env_den: 1 });
    assert_eq!(frame_at(9, 10, 0), Frame::Tone { env_num: 1, env_den: 1 });
}

#[test]
fn scenario_twenty_hertz_fifteen_seconds() {
    // frequency 20 Hz, duration 15 s, fade 1 s, sample rate 48000.
    let p = session_params(15, 1000, 48000);
    assert_eq!(p.total_samples, 720000);
    assert_eq!(p.fade_samples, 48000);

    // At index 0 the envelope numerator is 0, so the sample is exactly 0.
    match frame_at(0, p.total_samples, p.fade_samples) {
        Frame::Tone { env_num, .. } => assert_eq!(env_num, 0),
        Frame::Silence => panic!("tone expected at the first sample"),
    }

    // At index 48000 the envelope is exactly 1, so the sample is the raw
    // sine value at t = 1.0 s times the gain.
    let gain = 0.05f64;
    match frame_at(48000, p.total_samples, p.fade_samples) {
        Frame::Tone { env_num, env_den } => {
            let t = 48000f64 / 48000f64;
            let raw = (2.0 * std::f64::consts::PI * 20.0 * t).sin();
            let sample = raw * (env_num as f64 / env_den as f64) * gain;
            let expected = raw * gain;
            assert!((sample - expected).abs() < 1e-12);
        }
        Frame::Silence => panic!("tone expected after the fade-in"),
    }
}
