use vstd::prelude::*;

verus! {

/// The pose of the robot on the plane: `x` and `y` in micrometres, `theta`
/// in microradians, counter-clockwise from the x axis.
#[derive(Clone, Copy, Debug, PartialEq, Eq, Structural)]
pub struct Position {
    pub x: i64,
    pub y: i64,
    pub theta: i64,
}

impl Position {
    /// The origin, facing along the x axis.
    pub fn zero() -> (p: Position)
        ensures
            p.x == 0 && p.y == 0 && p.theta == 0,
    {
        Position { x: 0, y: 0, theta: 0 }
    }
}

} // verus!
