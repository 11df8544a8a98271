use vstd::prelude::*;

verus! {

/// Every way in which a calibration update or a colour gesture can fail.
#[derive(Clone, Copy, Debug, PartialEq, Eq, Structural)]
pub enum GestureError {
    /// A colour component or a calibration value lies outside its range.
    InvalidInput,
    /// A colour was requested before any calibration was stored.
    MissingCalibration,
    /// No top-level window with the target's title exists.
    WindowNotFound,
    /// A platform call reported a failure.
    OsCallFailure,
    /// This platform has no native input backend.
    UnsupportedPlatform,
    /// The shared calibration slot could not be locked.
    LockFailure,
}

} // verus!
