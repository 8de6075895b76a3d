use vstd::prelude::*;

use crate::draw::DrawCmd;
use crate::rng::random_in_range;
use crate::sprite::{collides, stepped, CanvasDimension, Sprite, SpriteData};
use crate::vector::Vector;

verus! {

/// Above this diameter a hit asteroid splits into three children instead of two.
pub const DIAMETER_MAX: i64 = 110_000;

/// At or below this diameter a hit asteroid is destroyed outright.
pub const MINIMAL_DIAMETER_BREAKUP: i64 = 60_000;

/// How many children a broken asteroid of the given diameter yields.
pub open spec fn breakup_count(diameter: int) -> int {
    if diameter <= 60_000 {
        0
    } else if diameter <= 110_000 {
        2
    } else {
        3
    }
}

/// A child's diameter: the parent's divided by 0.8 times the child count,
/// so two children get parent / 1.6 and three get parent / 2.4.
pub open spec fn child_diameter(diameter: int, count: int) -> int {
    diameter * 5 / (4 * count)
}

/// One child of a broken asteroid among `count` siblings: the parent's
/// position, rotation, rotation step and side count, the scaled-down child
/// diameter, and a well-formed fresh silhouette.
pub open spec fn child_of(parent: Potatoid, child: Potatoid, count: int) -> bool {
    child.wf() && child.sprite.data.diameter == child_diameter(
        parent.sprite.data.diameter as int,
        count,
    ) && child.sprite.data.position == parent.sprite.data.position
        && child.sprite.data.rotation == parent.sprite.data.rotation
        && child.sprite.data.rotation_step == parent.sprite.data.rotation_step && child.sides
        == parent.sides && child.sprite.canvas == parent.sprite.canvas && -1200
        <= child.sprite.data.velocity.x <= 1200 && -1200 <= child.sprite.data.velocity.y <= 1200
}

/// Everything `break_up` pins about its result: the child count set by the
/// parent's diameter, and every child a `child_of` the parent.
pub open spec fn breakup_outcome(parent: Potatoid, children: Seq<Potatoid>) -> bool {
    children.len() == breakup_count(parent.sprite.data.diameter as int) && forall|i: int|
        0 <= i < children.len() ==> child_of(parent, #[trigger] children[i], children.len() as int)
}

/// The relation between an asteroid before and after one frame: the sprite
/// integrates and the silhouette is untouched.
pub open spec fn potatoid_stepped(pre: Potatoid, post: Potatoid) -> bool {
    stepped(pre.sprite, post.sprite) && post.sides == pre.sides && post.vertex_radii@
        == pre.vertex_radii@
}

/// An irregular polygonal asteroid: a sprite plus a silhouette generated once
/// at construction, held as one radius per vertex, evenly spaced in angle.
#[derive(Debug)]
pub struct Potatoid {
    pub sides: u8,
    pub sprite: Sprite,
    pub vertex_radii: Vec<i64>,
}

impl Potatoid {
    /// A polygon with one radius per side, each radius drawn from
    /// [0.35, 0.5) of the diameter; the diameter is big enough (seven
    /// milli-pixels) that the integer radius range is never empty.
    pub open spec fn wf(self) -> bool {
        self.sprite.wf() && 1 <= self.sides && self.vertex_radii@.len() == self.sides as int
            && 7 <= self.sprite.data.diameter && forall|i: int|
            0 <= i < self.vertex_radii@.len() ==> self.sprite.data.diameter * 35 / 100
                <= #[trigger] self.vertex_radii@[i] < self.sprite.data.diameter * 50 / 100
    }

    pub fn new(sprite_data: SpriteData, sides: u8, canvas: CanvasDimension) -> (r: Potatoid)
        requires
            sprite_data.wf(),
            canvas.wf(),
            1 <= sides,
            7 <= sprite_data.diameter,
        ensures
            r.wf(),
            r.sprite == (Sprite { data: sprite_data, canvas }),
            r.sides == sides,
    {
        let diameter = sprite_data.diameter;
        proof {
            assert(0 <= diameter * 35 / 100 && diameter * 35 / 100 < diameter * 50 / 100
                && diameter * 50 / 100 <= diameter) by (nonlinear_arith)
                requires
                    7 <= diameter <= 10_000_000,
            ;
        }
        let lo = diameter * 35 / 100;
        let hi = diameter * 50 / 100;
        let mut vertex_radii: Vec<i64> = Vec::new();
        let mut side: u8 = 0;
        while side < sides
            invariant
                side <= sides,
                vertex_radii@.len() == side as int,
                lo == diameter * 35 / 100,
                hi == diameter * 50 / 100,
                lo < hi,
                forall|i: int|
                    0 <= i < vertex_radii@.len() ==> lo <= #[trigger] vertex_radii@[i] < hi,
            decreases sides - side,
        {
            let radius = random_in_range(lo, hi);
            vertex_radii.push(radius);
            side = side + 1;
        }
        Potatoid { sides, sprite: Sprite::new(sprite_data, canvas), vertex_radii }
    }

    /// One frame: the sprite integrates; the silhouette never changes.
    pub fn update(&mut self)
        requires
            old(self).wf(),
        ensures
            final(self).wf(),
            potatoid_stepped(*old(self), *final(self)),
    {
        self.sprite.update();
    }

    /// The circular bounding test against another sprite's state; the polygon
    /// shape is visual only.
    pub fn collide_with(&self, sprite: Sprite) -> (r: bool)
        requires
            self.wf(),
            sprite.wf(),
        ensures
            r == collides(self.sprite.data, sprite.data),
    {
        self.sprite.collide_with(sprite)
    }

    /// Break a hit asteroid up. At or below the minimal break-up diameter it
    /// is destroyed outright and no children come back. Above it, two children
    /// (or three, above `DIAMETER_MAX`) inherit the parent's position,
    /// rotation, rotation step and side count; each gets the scaled-down
    /// child diameter, a fresh jittered velocity and a fresh silhouette.
    pub fn break_up(&self) -> (children: Vec<Potatoid>)
        requires
            self.wf(),
        ensures
            breakup_outcome(*self, children@),
            children@.len() == breakup_count(self.sprite.data.diameter as int),
    {
        let mut children: Vec<Potatoid> = Vec::new();
        let diameter = self.sprite.data.diameter;
        if diameter > MINIMAL_DIAMETER_BREAKUP {
            let count: i64 = if diameter > DIAMETER_MAX {
                3
            } else {
                2
            };
            proof {
                assert(1000 <= diameter * 5 / (4 * count) && diameter * 5 / (4 * count)
                    <= diameter) by (nonlinear_arith)
                    requires
                        60_000 < diameter <= 10_000_000,
                        2 <= count <= 3,
                ;
            }
            let small = diameter * 5 / (4 * count);
            let mut counter: i64 = 0;
            while counter < count
                invariant
                    0 <= counter <= count,
                    children@.len() == counter as int,
                    2 <= count <= 3,
                    small == child_diameter(self.sprite.data.diameter as int, count as int),
                    1000 <= small <= 10_000_000,
                    self.wf(),
                    forall|i: int|
                        0 <= i < children@.len() ==> {
                            let c = #[trigger] children@[i];
                            c.wf() && c.sprite.data.diameter == small
                                && c.sprite.data.position == self.sprite.data.position
                                && c.sprite.data.rotation == self.sprite.data.rotation
                                && c.sprite.data.rotation_step == self.sprite.data.rotation_step
                                && c.sides == self.sides && c.sprite.canvas == self.sprite.canvas
                                && -1200 <= c.sprite.data.velocity.x <= 1200 && -1200
                                <= c.sprite.data.velocity.y <= 1200
                        },
                decreases count - counter,
            {
                let velocity = Vector::random_limit(1200, 800);
                let sprite_data = SpriteData {
                    position: self.sprite.data.position,
                    velocity,
                    diameter: small,
                    rotation: self.sprite.data.rotation,
                    rotation_step: self.sprite.data.rotation_step,
                };
                children.push(Potatoid::new(sprite_data, self.sides, self.sprite.canvas));
                counter = counter + 1;
            }
        }
        children
    }

    /// The commands that paint this asteroid: the polygon header, then one
    /// vertex per side.
    pub open spec fn render(self) -> Seq<DrawCmd> {
        seq![
            DrawCmd::Polygon {
                x: self.sprite.data.position.x,
                y: self.sprite.data.position.y,
                rotation: self.sprite.data.rotation,
                sides: self.sides,
            },
        ] + Seq::new(
            self.vertex_radii@.len(),
            |i: int| DrawCmd::Vertex { radius: self.vertex_radii@[i] },
        )
    }

    /// Append this asteroid's drawing commands; reading an asteroid changes
    /// nothing, so drawing is repeatable.
    pub fn draw(&self, out: &mut Vec<DrawCmd>)
        ensures
            final(out)@ == old(out)@ + self.render(),
    {
        out.push(
            DrawCmd::Polygon {
                x: self.sprite.data.position.x,
                y: self.sprite.data.position.y,
                rotation: self.sprite.data.rotation,
                sides: self.sides,
            },
        );
        let n = self.vertex_radii.len();
        let mut i: usize = 0;
        while i < n
            invariant
                i <= n,
                n == self.vertex_radii@.len(),
                out@ == old(out)@ + seq![
                    DrawCmd::Polygon {
                        x: self.sprite.data.position.x,
                        y: self.sprite.data.position.y,
                        rotation: self.sprite.data.rotation,
                        sides: self.sides,
                    },
                ] + Seq::new(i as nat, |j: int| DrawCmd::Vertex { radius: self.vertex_radii@[j] }),
            decreases n - i,
        {
            out.push(DrawCmd::Vertex { radius: self.vertex_radii[i] });
            i = i + 1;
            proof {
                assert(Seq::new(i as nat, |j: int| DrawCmd::Vertex { radius: self.vertex_radii@[j] })
                    =~= Seq::new(
                    (i - 1) as nat,
                    |j: int| DrawCmd::Vertex { radius: self.vertex_radii@[j] },
                ).push(DrawCmd::Vertex { radius: self.vertex_radii@[i - 1] }));
            }
        }
        proof {
            assert(out@ =~= old(out)@ + self.render());
        }
    }
}

} // verus!
