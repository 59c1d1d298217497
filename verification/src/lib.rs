//! Core logic of a speaker keep-alive tone player.
//!
//! The library holds the verified heart of the program: the fade envelope of
//! the synthesized tone, the per-frame sample clock with its completion flag,
//! the conversion of samples to the wire formats a device may negotiate, the
//! resolution of a device name against the enumerated outputs, and the
//! wall-clock scheduler that decides when the next tone is due.  Audio I/O,
//! the real-time callback and everything the operating system touches live
//! outside the library and call into it with plain values.

use vstd::prelude::*;

pub mod adapter;
pub mod config;
pub mod device;
pub mod sched;
pub mod service;
pub mod session;
pub mod synth;

verus! {

/// The errors a playback attempt can end in.  Every error is terminal for
/// the attempt that raised it; retrying is the scheduler's decision alone.
#[derive(Clone, Copy, Debug, PartialEq, Eq, Structural)]
pub enum PlaybackError {
    /// No output device matched the requested name, or no default exists.
    DeviceNotFound,
    /// The audio backend could not enumerate its output devices.
    EnumerationFailed,
    /// The device refused to report its default stream configuration.
    DeviceQueryFailed,
    /// The device negotiated a sample format the adapter does not speak.
    UnsupportedFormat,
    /// Building the output stream failed.
    StreamBuildFailed,
    /// Starting the output stream failed.
    StreamStartFailed,
}

impl PlaybackError {
    /// A fixed human-readable description of the error.
    pub fn message(&self) -> (r: &'static str)
        ensures
            r@ == match *self {
                PlaybackError::DeviceNotFound => "no matching output device found"@,
                PlaybackError::EnumerationFailed => "failed to enumerate output devices"@,
                PlaybackError::DeviceQueryFailed => "failed to get default output config"@,
                PlaybackError::UnsupportedFormat => "unsupported sample format"@,
                PlaybackError::StreamBuildFailed => "failed to build output stream"@,
                PlaybackError::StreamStartFailed => "failed to play stream"@,
            },
    {
        match *self {
            PlaybackError::DeviceNotFound => "no matching output device found",
            PlaybackError::EnumerationFailed => "failed to enumerate output devices",
            PlaybackError::DeviceQueryFailed => "failed to get default output config",
            PlaybackError::UnsupportedFormat => "unsupported sample format",
            PlaybackError::StreamBuildFailed => "failed to build output stream",
            PlaybackError::StreamStartFailed => "failed to play stream",
        }
    }
}

} // verus!
