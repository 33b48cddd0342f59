use vstd::prelude::*;

verus! {

/// Where a car, a camera or a road tile is, and which way it faces.
///
/// `x` and `y` are in billionths of a unit, `rotation` in billionths of a
/// radian.
#[derive(Clone, Copy, Debug, PartialEq, Eq, Structural)]
pub struct Pose {
    pub x: i64,
    pub y: i64,
    pub rotation: i64,
}

/// Sine and cosine of a heading, in billionths: each between minus and plus
/// 1 000 000 000.
///
/// The library works in integers and does no trigonometry of its own: the
/// caller supplies the pair that belongs to the heading of the car it moves.
#[derive(Clone, Copy, Debug, PartialEq, Eq, Structural)]
pub struct Heading {
    pub sin: i32,
    pub cos: i32,
}

impl Pose {
    /// Moves this pose onto `target`, keeping its own rotation: a camera
    /// follows a car without lag and without turning with it.
    pub fn follow(&mut self, target: &Pose)
        ensures
            final(self).x == target.x,
            final(self).y == target.y,
            final(self).rotation == old(self).rotation,
    {
        self.x = target.x;
        self.y = target.y;
    }
}

impl Default for Heading {
    /// The heading zero: sine nought, cosine one.
    fn default() -> (heading: Self)
        ensures
            heading == (Heading { sin: 0, cos: 1_000_000_000 }),
    {
        Heading { sin: 0, cos: 1_000_000_000 }
    }
}

impl Default for Pose {
    /// The pose at the origin, facing along the heading zero.
    fn default() -> (pose: Self)
        ensures
            pose == (Pose { x: 0, y: 0, rotation: 0 }),
    {
        Pose { x: 0, y: 0, rotation: 0 }
    }
}

} // verus!
