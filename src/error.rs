//! Errors of the recording engine.

use vstd::prelude::*;

verus! {

/// What can go wrong when starting or stopping a recording.
#[derive(Clone, Copy, Debug, PartialEq, Eq, Structural)]
pub enum AudioError {
    DeviceEnumerationFailed,
    NoInputDevice,
    NoDefaultMicrophone,
    StreamBuildError,
    DuplicateRecordingId,
    RecordingNotFound,
    FileCreateError,
    EncoderFinalizeError,
    InvalidRecordingId,
}

impl AudioError {
    /// A sentence describing the error.
    pub fn message(&self) -> &'static str {
        match self {
            AudioError::DeviceEnumerationFailed => "failed to enumerate input devices",
            AudioError::NoInputDevice => "no input devices found",
            AudioError::NoDefaultMicrophone => "no default microphone input device available",
            AudioError::StreamBuildError => "failed to build an input stream",
            AudioError::DuplicateRecordingId => "a recording with this id is already active",
            AudioError::RecordingNotFound => "no active recording with this id",
            AudioError::FileCreateError => "failed to create the output file",
            AudioError::EncoderFinalizeError => "failed to finalize the output file",
            AudioError::InvalidRecordingId => "the recording id is not a valid UUID",
        }
    }
}

} // verus!
