use vstd::prelude::*;

verus! {

/// A discrete movement command for a free-fly camera.
#[derive(Clone, Copy, Debug, PartialEq, Eq, Structural)]
pub enum Movement {
    Forward,
    BackWard,
    Left,
    Right,
}

/// A direction of the camera's basis along which a movement translates it.
///
/// `Front` is the viewing direction itself; `Side` is the normalised cross
/// product of the viewing direction with the camera's up vector, which points
/// to the viewer's right.
#[derive(Clone, Copy, Debug, PartialEq, Eq, Structural)]
pub enum Axis {
    Front,
    Side,
}

/// The basis direction that a movement command follows.
pub open spec fn movement_axis(m: Movement) -> Axis {
    match m {
        Movement::Forward | Movement::BackWard => Axis::Front,
        Movement::Left | Movement::Right => Axis::Side,
    }
}

/// Whether a movement command goes along its axis (`1`) or against it (`-1`).
pub open spec fn movement_sign(m: Movement) -> int {
    match m {
        Movement::Forward | Movement::Right => 1,
        Movement::BackWard | Movement::Left => -1,
    }
}

impl Movement {
    /// The basis direction along which this command moves the camera.
    pub fn axis(&self) -> (r: Axis)
        ensures
            r == movement_axis(*self),
    {
        match self {
            Movement::Forward | Movement::BackWard => Axis::Front,
            Movement::Left | Movement::Right => Axis::Side,
        }
    }

    /// The sign with which the displacement `velocity * axis` is applied.
    pub fn sign(&self) -> (r: i8)
        ensures
            r as int == movement_sign(*self),
            r == 1 || r == -1,
    {
        match self {
            Movement::Forward | Movement::Right => 1,
            Movement::BackWard | Movement::Left => -1,
        }
    }
}

} // verus!
