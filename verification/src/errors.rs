//! Error kinds of the binding layer and the translation of native status
//! codes into them.

use vstd::prelude::*;

verus! {

/// A general purpose error.
///
/// Every fallible operation of the binding returns one of these instead of
/// aborting the process.
#[derive(Clone, Copy, PartialEq, Eq, Structural, Debug)]
pub enum AudioError {
    /// The source path does not exist at load time.
    FileError,
    /// The native engine could not decode or open the file.
    DecoderError,
    /// The target playback device is invalid or unavailable.
    DeviceError,
    /// The native engine failed to open a session.
    ContextError,
    /// A native status code outside the defined contract. A sign of a defect:
    /// it must never occur in correct operation.
    UnknownError,
}

impl AudioError {
    /// A short human-readable description of the error.
    pub fn message(&self) -> (r: &'static str)
        ensures
            self is FileError ==> r@ == "unable to find file"@,
            self is DecoderError ==> r@ == "unable to decode file"@,
            self is DeviceError ==> r@ == "invalid device"@,
            self is ContextError ==> r@ == "unable to initialize context"@,
            self is UnknownError ==> r@ == "unknown error"@,
    {
        match self {
            AudioError::FileError => "unable to find file",
            AudioError::DecoderError => "unable to decode file",
            AudioError::DeviceError => "invalid device",
            AudioError::ContextError => "unable to initialize context",
            AudioError::UnknownError => "unknown error",
        }
    }
}

/// The error that a nonzero status code of the native `load-clip` call
/// stands for: `-1` is a decode failure, `-2` a device failure, and any
/// other nonzero code is outside the native contract.
pub open spec fn load_status_error(code: i32) -> AudioError {
    if code == -1 {
        AudioError::DecoderError
    } else if code == -2 {
        AudioError::DeviceError
    } else {
        AudioError::UnknownError
    }
}

/// Translates a status code returned by the native `load-clip` call.
///
/// Zero is success; every nonzero code maps to exactly one error kind,
/// immediately at the call site and without retries.
pub fn decode_load_status(code: i32) -> (r: Result<(), AudioError>)
    ensures
        code == 0 <==> r is Ok,
        code != 0 ==> r == Result::<(), AudioError>::Err(load_status_error(code)),
{
    match code {
        0 => Ok(()),
        -1 => Err(AudioError::DecoderError),
        -2 => Err(AudioError::DeviceError),
        _ => Err(AudioError::UnknownError),
    }
}

} // verus!
