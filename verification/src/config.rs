//! Playback configuration as the library sees it.  Fractional quantities are
//! held in fixed units — frequency in millihertz, fade duration in
//! milliseconds, volume in thousandths of full scale — so that every
//! derivation from them is exact integer arithmetic.  Reading a configuration
//! file and parsing it happen outside the library, which receives the fields
//! as plain values.

use vstd::prelude::*;

verus! {

/// Default tone frequency, in millihertz.
pub fn default_frequency_millihz() -> (r: u64)
    ensures
        r == 20000,
{
    20000
}

/// Default duration of each tone, in seconds.
pub fn default_duration() -> (r: u64)
    ensures
        r == 15,
{
    15
}

/// Default interval between tones, in seconds.
pub fn default_interval() -> (r: u64)
    ensures
        r == 540,
{
    540
}

/// Default fade-in/fade-out duration, in milliseconds.
pub fn default_fade_millis() -> (r: u64)
    ensures
        r == 1000,
{
    1000
}

/// Default volume, in thousandths of full scale.
pub fn default_volume_milli() -> (r: u64)
    ensures
        r == 50,
{
    50
}

/// One playback's configuration, immutable for the lifetime of a session.
#[derive(Clone, Debug)]
pub struct Config {
    /// Tone frequency in millihertz.
    pub frequency_millihz: u64,
    /// Duration of each tone in seconds.
    pub duration: u64,
    /// Interval between tones in seconds.
    pub interval: u64,
    /// Fade in/out duration in milliseconds.
    pub fade_millis: u64,
    /// Volume in thousandths of full scale.
    pub volume_milli: u64,
    /// Output device name; empty means the host default.
    pub device: String,
}

impl Default for Config {
    /// The configuration used when no file supplies any field.
    fn default() -> (c: Config)
        ensures
            c.frequency_millihz == 20000,
            c.duration == 15,
            c.interval == 540,
            c.fade_millis == 1000,
            c.volume_milli == 50,
            c.device@.len() == 0,
    {
        Config {
            frequency_millihz: default_frequency_millihz(),
            duration: default_duration(),
            interval: default_interval(),
            fade_millis: default_fade_millis(),
            volume_milli: default_volume_milli(),
            device: String::new(),
        }
    }
}

impl Config {
    /// The gain the synthesizer applies: the configured volume clamped to
    /// full scale.
    pub fn clamped_volume_milli(&self) -> (r: u64)
        ensures
            r == if self.volume_milli > 1000 {
                1000u64
            } else {
                self.volume_milli
            },
    {
        if self.volume_milli > 1000 {
            1000
        } else {
            self.volume_milli
        }
    }
}

} // verus!
