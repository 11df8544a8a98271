use vstd::prelude::*;

use crate::error::GestureError;

verus! {

/// Largest wheel radius, in pixels, that a calibration may hold.
pub const MAX_RADIUS: i32 = 1000;

/// Where the target application's colour controls sit on screen, in pixels:
/// the wheel's center and radius, and the slider's horizontal extent and row.
#[derive(Clone, Copy, Debug, PartialEq, Eq, Structural)]
pub struct CalibrationData {
    pub center_x: i32,
    pub center_y: i32,
    pub radius: i32,
    pub brightness_x_start: i32,
    pub brightness_x_end: i32,
    pub brightness_y: i32,
}

impl CalibrationData {
    /// A usable calibration: a radius in `1..=1000` and a slider that runs
    /// from left to right.
    pub open spec fn wf(self) -> bool {
        &&& 0 < self.radius <= MAX_RADIUS
        &&& self.brightness_x_start < self.brightness_x_end
    }

    /// Tells whether the record is usable; `InvalidInput` otherwise.
    pub fn validate(&self) -> (r: Result<(), GestureError>)
        ensures
            r is Ok <==> self.wf(),
            r is Err ==> r == Err::<(), GestureError>(GestureError::InvalidInput),
    {
        if self.radius <= 0 || self.radius > MAX_RADIUS {
            return Err(GestureError::InvalidInput);
        }
        if self.brightness_x_start >= self.brightness_x_end {
            return Err(GestureError::InvalidInput);
        }
        Ok(())
    }
}

/// The single slot that holds the current calibration for the session.
pub struct CalibrationStore {
    current: Option<CalibrationData>,
}

impl CalibrationStore {
    /// What the store holds: the last accepted record, if any.
    pub closed spec fn view(&self) -> Option<CalibrationData> {
        self.current
    }

    /// Only validated records are ever stored.
    #[verifier::type_invariant]
    spec fn inv(&self) -> bool {
        self.current matches Some(c) ==> c.wf()
    }

    /// An empty store.
    pub fn new() -> (r: CalibrationStore)
        ensures
            r.view() is None,
    {
        CalibrationStore { current: None }
    }

    /// Replaces the stored record with `record` when it is valid; otherwise
    /// fails with `InvalidInput` and keeps the old one.
    pub fn set_calibration(&mut self, record: CalibrationData) -> (r: Result<(), GestureError>)
        ensures
            r is Ok <==> record.wf(),
            r is Ok ==> final(self).view() == Some(record),
            r is Err ==> r == Err::<(), GestureError>(GestureError::InvalidInput)
                && final(self).view() == old(self).view(),
    {
        match record.validate() {
            Ok(()) => {
                self.current = Some(record);
                Ok(())
            },
            Err(e) => Err(e),
        }
    }

    /// The stored record, or `None` before the first accepted update.
    pub fn get_calibration(&self) -> (r: Option<CalibrationData>)
        ensures
            r == self.view(),
            r matches Some(c) ==> c.wf(),
    {
        proof {
            use_type_invariant(self);
        }
        self.current
    }
}

} // verus!
