use vstd::prelude::*;

use crate::trig::{angle_after_step, angle_ok, step_angle};
use crate::vector::{coord_ok, Vector};

verus! {

/// The size of the hosting canvas, in milli-pixel units.
#[derive(Clone, Copy, PartialEq, Eq, Structural, Debug)]
pub struct CanvasDimension {
    pub width: i64,
    pub height: i64,
}

impl CanvasDimension {
    /// A canvas is at least one pixel and at most 100,000 pixels on each side.
    pub open spec fn wf(self) -> bool {
        1000 <= self.width <= 100_000_000 && 1000 <= self.height <= 100_000_000
    }
}

/// The shared physical state of every entity: position, velocity, size and
/// free rotation, all in milli-units.
#[derive(Clone, Copy, PartialEq, Eq, Structural, Debug)]
pub struct SpriteData {
    pub position: Vector,
    pub velocity: Vector,
    pub diameter: i64,
    pub rotation: i64,
    pub rotation_step: i64,
}

impl SpriteData {
    pub open spec fn wf(self) -> bool {
        self.position.wf() && -100_000 <= self.velocity.x <= 100_000 && -100_000
            <= self.velocity.y <= 100_000 && 0 <= self.diameter <= 10_000_000 && angle_ok(
            self.rotation as int,
        ) && -1000 <= self.rotation_step <= 1000
    }
}

/// One coordinate after integration: the coordinate moves by its velocity and
/// jumps to the opposite edge once it leaves the canvas by more than the
/// sprite's radius.
pub open spec fn wrap_coord(p: int, v: int, radius: int, extent: int) -> int {
    let moved = p + v;
    if moved < -radius {
        extent + radius
    } else if moved > extent + radius {
        -radius
    } else {
        moved
    }
}

/// Circular collision: the distance between the two centers is smaller than
/// the sum of the two radii (each radius is half the diameter, rounded down).
pub open spec fn collides(a: SpriteData, b: SpriteData) -> bool {
    let dx = a.position.x - b.position.x;
    let dy = a.position.y - b.position.y;
    let reach = a.diameter / 2 + b.diameter / 2;
    dx * dx + dy * dy < reach * reach
}

/// The relation between a sprite before and after one integration step: the
/// position moves by the velocity and wraps at the canvas edges, the rotation
/// advances by the rotation step, and everything else is untouched.
pub open spec fn stepped(pre: Sprite, post: Sprite) -> bool {
    post.data.position.x == wrap_coord(
        pre.data.position.x as int,
        pre.data.velocity.x as int,
        pre.data.diameter as int / 2,
        pre.canvas.width as int,
    ) && post.data.position.y == wrap_coord(
        pre.data.position.y as int,
        pre.data.velocity.y as int,
        pre.data.diameter as int / 2,
        pre.canvas.height as int,
    ) && post.data.rotation == angle_after_step(
        pre.data.rotation as int,
        pre.data.rotation_step as int,
    ) && post.data.velocity == pre.data.velocity && post.data.diameter == pre.data.diameter
        && post.data.rotation_step == pre.data.rotation_step && post.canvas == pre.canvas
}

/// A sprite: physical state plus the canvas it lives on.
#[derive(Clone, Copy, PartialEq, Eq, Structural, Debug)]
pub struct Sprite {
    pub data: SpriteData,
    pub canvas: CanvasDimension,
}

impl Sprite {
    pub open spec fn wf(self) -> bool {
        self.data.wf() && self.canvas.wf()
    }

    pub fn new(data: SpriteData, canvas: CanvasDimension) -> (r: Sprite)
        ensures
            r == (Sprite { data, canvas }),
    {
        Sprite { data, canvas }
    }

    /// One integration step: the position moves by the velocity and wraps at
    /// the canvas edges, the rotation advances by the rotation step; velocity,
    /// diameter and rotation step are untouched.
    pub fn update(&mut self)
        requires
            old(self).wf(),
        ensures
            stepped(*old(self), *final(self)),
            final(self).wf(),
    {
        let radius = self.data.diameter / 2;
        self.data.position.x = wrap_axis(
            self.data.position.x,
            self.data.velocity.x,
            radius,
            self.canvas.width,
        );
        self.data.position.y = wrap_axis(
            self.data.position.y,
            self.data.velocity.y,
            radius,
            self.canvas.height,
        );
        self.data.rotation = step_angle(self.data.rotation, self.data.rotation_step);
    }

    /// The circular bounding test against another sprite's physical state.
    pub fn collide_with(&self, other: Sprite) -> (r: bool)
        requires
            self.wf(),
            other.wf(),
        ensures
            r == collides(self.data, other.data),
    {
        collides_exec(self.data, other.data)
    }
}

/// The executable form of `collides`, shared by every entity.
pub fn collides_exec(a: SpriteData, b: SpriteData) -> (r: bool)
    requires
        a.wf(),
        b.wf(),
    ensures
        r == collides(a, b),
{
    let dx = a.position.x - b.position.x;
    let dy = a.position.y - b.position.y;
    let reach = a.diameter / 2 + b.diameter / 2;
    proof {
        assert(0 <= dx * dx <= 1_800_000_000 * 1_800_000_000) by (nonlinear_arith)
            requires
                -1_800_000_000 <= dx <= 1_800_000_000,
        ;
        assert(0 <= dy * dy <= 1_800_000_000 * 1_800_000_000) by (nonlinear_arith)
            requires
                -1_800_000_000 <= dy <= 1_800_000_000,
        ;
        assert(0 <= reach * reach <= 10_000_000 * 10_000_000) by (nonlinear_arith)
            requires
                0 <= reach <= 10_000_000,
        ;
    }
    dx * dx + dy * dy < reach * reach
}

/// The executable form of `wrap_coord` for one axis.
fn wrap_axis(p: i64, v: i64, radius: i64, extent: i64) -> (r: i64)
    requires
        coord_ok(p as int),
        -100_000 <= v <= 100_000,
        0 <= radius <= 5_000_000,
        1000 <= extent <= 100_000_000,
    ensures
        r == wrap_coord(p as int, v as int, radius as int, extent as int),
        -5_000_000 <= r <= 105_000_000,
{
    let moved = p + v;
    if moved < -radius {
        extent + radius
    } else if moved > extent + radius {
        -radius
    } else {
        moved
    }
}

} // verus!
