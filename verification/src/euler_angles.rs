use vstd::prelude::*;

verus! {

/// A rotation as pitch, yaw, and roll angles.
#[derive(Clone, Copy)]
#[verifier::ext_equal]
pub struct EulerAngles<T> {
    /// Rotation around the lateral axis.
    pub pitch: T,
    /// Rotation around the vertical axis.
    pub yaw: T,
    /// Rotation around the longitudinal axis.
    pub roll: T,
}

impl<T> EulerAngles<T> {
    /// A rotation from its three angles.
    pub fn new(pitch: T, yaw: T, roll: T) -> (r: EulerAngles<T>)
        ensures
            r.pitch == pitch,
            r.yaw == yaw,
            r.roll == roll,
    {
        EulerAngles { pitch, yaw, roll }
    }
}

} // verus!
