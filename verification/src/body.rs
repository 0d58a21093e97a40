//! A circular body on the field: position, velocity and radius, in
//! hundredths of a pixel.  The integrator advances a body's position by its
//! velocity, one tick at a time.

use crate::motion::{Vel2, Velocity};
use crate::num::iabs;
use vstd::prelude::*;

verus! {

/// One of the three bodies: a player paddle or the ball.  Which one it is
/// shows in its radius, which never changes after creation.
#[derive(Clone, Copy, PartialEq, Eq, Structural, Debug)]
pub struct Body {
    /// x coordinate of the center, in hundredths of a pixel.
    pub x: i64,
    /// y coordinate of the center, in hundredths of a pixel.
    pub y: i64,
    /// Velocity, in hundredths of a pixel per tick.
    pub vel: Velocity,
    /// Radius, in hundredths of a pixel.
    pub radius: i64,
}

/// The mathematical value of a `Body`, over unbounded integers.
pub ghost struct BodyV {
    pub x: int,
    pub y: int,
    pub vel: Vel2,
    pub radius: int,
}

impl View for Body {
    type V = BodyV;

    open spec fn view(&self) -> BodyV {
        BodyV { x: self.x as int, y: self.y as int, vel: self.vel@, radius: self.radius as int }
    }
}

/// The squared Euclidean distance between the centers of two bodies.
pub open spec fn dist2(a: BodyV, b: BodyV) -> int {
    (a.x - b.x) * (a.x - b.x) + (a.y - b.y) * (a.y - b.y)
}

/// The sum of two bodies' radii: the center distance below which they
/// overlap.
pub open spec fn rsum(a: BodyV, b: BodyV) -> int {
    a.radius + b.radius
}

/// One tick of integration: the position moves by exactly the velocity.
pub open spec fn spec_integrate(b: BodyV) -> BodyV {
    BodyV { x: b.x + b.vel.x, y: b.y + b.vel.y, vel: b.vel, radius: b.radius }
}

impl Body {
    /// Advance this body's position by its velocity for one tick.  The
    /// post-tick position is exactly the old position plus the velocity.
    pub fn integrate(&mut self)
        requires
            iabs(old(self)@.x) + iabs(old(self)@.vel.x) <= i64::MAX,
            iabs(old(self)@.y) + iabs(old(self)@.vel.y) <= i64::MAX,
        ensures
            final(self)@ == spec_integrate(old(self)@),
            iabs(final(self)@.x) <= iabs(old(self)@.x) + iabs(old(self)@.vel.x),
            iabs(final(self)@.y) <= iabs(old(self)@.y) + iabs(old(self)@.vel.y),
    {
        self.x = self.x + self.vel.x;
        self.y = self.y + self.vel.y;
    }
}

} // verus!
