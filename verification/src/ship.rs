use vstd::prelude::*;

use crate::draw::DrawCmd;
use crate::laser::{advance_lasers, laser_hits_any, lasers_advanced, lasers_struck, strike_lasers, Laser, LASER_DIAMETER, LASER_LIFE_FRAMES, LASER_SPEED};
use crate::potatoid::Potatoid;
use crate::rng::random_in_range;
use crate::sprite::{collides, wrap_coord, CanvasDimension, Sprite, SpriteData};
use crate::trig::{angle_after_step, angle_ok, cos_mrad, cos_mrad_val, sin_mrad, sin_mrad_val, step_angle, UP_MRAD};
use crate::vector::{scale_component, scaled, Vector};

verus! {

/// Top speed of the ship along each axis, in milli-pixels per frame.
pub const SHIP_MAX_SPEED: i64 = 20_000;

/// Thrust gained per boosting frame, in milli-pixels per frame.
pub const SHIP_THRUST: i64 = 200;

/// Diameter of a piece of ship debris, in milli-pixels.
pub const FRAGMENT_DIAMETER: i64 = 20_000;

/// Side count of a piece of ship debris.
pub const FRAGMENT_SIDES: u8 = 8;

/// How many pieces of debris a destroyed ship leaves.
pub const FRAGMENT_COUNT: usize = 4;

/// A value clamped into [-limit, limit].
pub open spec fn clamped(v: int, limit: int) -> int {
    if v > limit {
        limit
    } else if v < -limit {
        -limit
    } else {
        v
    }
}

/// One velocity axis after a frame: thrust along the new heading while
/// boosting, clamped to the top speed; untouched otherwise.
pub open spec fn boosted_component(v: int, along: int, boosting: bool) -> int {
    if boosting {
        clamped(v + scaled(200, along), 20_000)
    } else {
        v
    }
}

/// The debris a destroyed ship leaves: four small well-formed asteroids at
/// the ship's position, inheriting its rotation, each with eight sides, a
/// drift of at most a pixel a frame and a spin of a hundredth of a radian
/// either way.
pub open spec fn debris_of(body: SpriteData, fragments: Seq<Potatoid>) -> bool {
    fragments.len() == 4 && forall|i: int|
        0 <= i < fragments.len() ==> {
            let f = #[trigger] fragments[i];
            f.wf() && f.sprite.data.position == body.position && f.sprite.data.diameter
                == FRAGMENT_DIAMETER && f.sides == FRAGMENT_SIDES && f.sprite.data.rotation
                == body.rotation && (f.sprite.data.rotation_step == 10 || f.sprite.data.rotation_step
                == -10) && -1000 <= f.sprite.data.velocity.x <= 1000 && -1000
                <= f.sprite.data.velocity.y <= 1000
        }
}

/// The laser the ship fires: at the shooter's position, the shooter's
/// velocity plus the laser speed along the heading, a fresh full life.
pub open spec fn fired_shot(sprite: Sprite, heading: int, velocity: Vector) -> Laser {
    Laser {
        sprite: Sprite {
            data: SpriteData {
                position: sprite.data.position,
                velocity: Vector {
                    x: (velocity.x + scaled(5000, cos_mrad_val(heading))) as i64,
                    y: (velocity.y + scaled(5000, sin_mrad_val(heading))) as i64,
                },
                diameter: LASER_DIAMETER,
                rotation: 0,
                rotation_step: 0,
            },
            canvas: sprite.canvas,
        },
        life: LASER_LIFE_FRAMES,
    }
}

/// The relation between the ship before and after one frame: the heading
/// turns by the turn rate, thrust applies along the new heading while
/// boosting (clamped to the top speed), the sprite integrates with the new
/// velocity, and the lasers advance with expired ones retiring.
pub open spec fn ship_frame(pre: Ship, post: Ship) -> bool {
    let heading = angle_after_step(pre.heading as int, pre.sprite.data.rotation_step as int);
    let vx = boosted_component(
        pre.sprite.data.velocity.x as int,
        cos_mrad_val(heading),
        pre.is_boosting,
    );
    let vy = boosted_component(
        pre.sprite.data.velocity.y as int,
        sin_mrad_val(heading),
        pre.is_boosting,
    );
    post.heading == heading && post.is_boosting == pre.is_boosting && post.sprite.canvas
        == pre.sprite.canvas && post.sprite.data.diameter == pre.sprite.data.diameter
        && post.sprite.data.rotation_step == pre.sprite.data.rotation_step
        && post.sprite.data.rotation == angle_after_step(
        pre.sprite.data.rotation as int,
        pre.sprite.data.rotation_step as int,
    ) && post.sprite.data.velocity.x == vx && post.sprite.data.velocity.y == vy
        && post.sprite.data.position.x == wrap_coord(
        pre.sprite.data.position.x as int,
        vx,
        pre.sprite.data.diameter as int / 2,
        pre.sprite.canvas.width as int,
    ) && post.sprite.data.position.y == wrap_coord(
        pre.sprite.data.position.y as int,
        vy,
        pre.sprite.data.diameter as int / 2,
        pre.sprite.canvas.height as int,
    ) && lasers_advanced(pre.lasers@, post.lasers@)
}

/// The player-controlled sprite: heading, thrust flag and its own lasers.
pub struct Ship {
    pub sprite: Sprite,
    pub heading: i64,
    pub lasers: Vec<Laser>,
    pub is_boosting: bool,
}

impl Ship {
    /// The ship keeps its speed under its own top speed (tighter than a
    /// general sprite's bound) so a laser it fires is a well-formed sprite.
    pub open spec fn wf(self) -> bool {
        self.sprite.wf() && -20_000 <= self.sprite.data.velocity.x <= 20_000 && -20_000
            <= self.sprite.data.velocity.y <= 20_000 && angle_ok(self.heading as int) && forall|
            i: int,
        | 0 <= i < self.lasers@.len() ==> (#[trigger] self.lasers@[i]).wf()
    }

    pub fn new(data: SpriteData, is_boosting: bool, canvas: CanvasDimension) -> (r: Ship)
        requires
            data.wf(),
            canvas.wf(),
            -20_000 <= data.velocity.x <= 20_000,
            -20_000 <= data.velocity.y <= 20_000,
        ensures
            r.wf(),
            r.sprite == (Sprite { data, canvas }),
            r.heading == UP_MRAD,
            r.lasers@.len() == 0,
            r.is_boosting == is_boosting,
    {
        Ship { sprite: Sprite::new(data, canvas), heading: UP_MRAD, lasers: Vec::new(), is_boosting }
    }

    /// Switch the thrust flame on or off.
    pub fn set_boost(&mut self, on: bool)
        ensures
            *final(self) == (Ship { is_boosting: on, ..*old(self) }),
    {
        self.is_boosting = on;
    }

    /// Set the turn rate, in milliradians per frame.
    pub fn set_rotation(&mut self, step: i64)
        requires
            -1000 <= step <= 1000,
        ensures
            final(self).sprite.data.rotation_step == step,
            final(self).sprite.data.position == old(self).sprite.data.position,
            final(self).sprite.data.velocity == old(self).sprite.data.velocity,
            final(self).sprite.data.diameter == old(self).sprite.data.diameter,
            final(self).sprite.data.rotation == old(self).sprite.data.rotation,
            final(self).sprite.canvas == old(self).sprite.canvas,
            final(self).heading == old(self).heading,
            final(self).lasers == old(self).lasers,
            final(self).is_boosting == old(self).is_boosting,
            old(self).wf() ==> final(self).wf(),
    {
        self.sprite.data.rotation_step = step;
    }

    /// Fire one laser: it starts at the ship's position and leaves along the
    /// ship's heading at the laser speed on top of the ship's velocity.
    pub fn shoot(&mut self)
        requires
            old(self).wf(),
        ensures
            final(self).wf(),
            final(self).lasers@.len() == old(self).lasers@.len() + 1,
            final(self).lasers@.subrange(0, old(self).lasers@.len() as int) == old(self).lasers@,
            final(self).lasers@.last() == fired_shot(old(self).sprite, old(self).heading as int, old(self).sprite.data.velocity),
            final(self).sprite == old(self).sprite,
            final(self).heading == old(self).heading,
            final(self).is_boosting == old(self).is_boosting,
    {
        let along = cos_mrad(self.heading);
        let across = sin_mrad(self.heading);
        let vx = self.sprite.data.velocity.x + scale_component(LASER_SPEED, along);
        let vy = self.sprite.data.velocity.y + scale_component(LASER_SPEED, across);
        let data = SpriteData {
            position: self.sprite.data.position,
            velocity: Vector { x: vx, y: vy },
            diameter: LASER_DIAMETER,
            rotation: 0,
            rotation_step: 0,
        };
        self.lasers.push(Laser { sprite: Sprite::new(data, self.sprite.canvas), life: LASER_LIFE_FRAMES });
        proof {
            assert(final(self).lasers@.subrange(0, old(self).lasers@.len() as int) =~= old(
                self,
            ).lasers@);
        }
    }

    /// One frame: the heading turns by the turn rate, thrust is applied along
    /// the heading while boosting (the speed stays clamped to the ship's top
    /// speed), the sprite integrates, and every laser advances, expired ones
    /// retiring.
    pub fn update(&mut self)
        requires
            old(self).wf(),
        ensures
            final(self).wf(),
            ship_frame(*old(self), *final(self)),
    {
        self.heading = step_angle(self.heading, self.sprite.data.rotation_step);
        if self.is_boosting {
            let along = cos_mrad(self.heading);
            let across = sin_mrad(self.heading);
            let vx = self.sprite.data.velocity.x + scale_component(SHIP_THRUST, along);
            let vy = self.sprite.data.velocity.y + scale_component(SHIP_THRUST, across);
            self.sprite.data.velocity.x = clamp_speed(vx, SHIP_MAX_SPEED);
            self.sprite.data.velocity.y = clamp_speed(vy, SHIP_MAX_SPEED);
        }
        self.sprite.update();
        advance_lasers(&mut self.lasers);
    }

    /// The ship's circular body test against another sprite's state.
    pub fn collide_with(&self, sprite: Sprite) -> (r: bool)
        requires
            self.wf(),
            sprite.wf(),
        ensures
            r == collides(self.sprite.data, sprite.data),
    {
        self.sprite.collide_with(sprite)
    }

    /// Whether one of the ship's lasers strikes the target; a striking laser
    /// is spent.
    pub fn lasers_collide_with(&mut self, sprite: Sprite) -> (hit: bool)
        requires
            old(self).wf(),
            sprite.wf(),
        ensures
            hit == laser_hits_any(old(self).lasers@, sprite.data),
            lasers_struck(old(self).lasers@, final(self).lasers@, sprite.data),
            final(self).sprite == old(self).sprite,
            final(self).heading == old(self).heading,
            final(self).is_boosting == old(self).is_boosting,
            final(self).wf(),
    {
        strike_lasers(&mut self.lasers, sprite.data)
    }

    /// The debris a destroyed ship leaves: four small asteroids at the ship's
    /// position, each drifting with a fresh jittered velocity.
    pub fn break_up(&self) -> (fragments: Vec<Potatoid>)
        requires
            self.wf(),
        ensures
            debris_of(self.sprite.data, fragments@),
    {
        let mut fragments: Vec<Potatoid> = Vec::new();
        let mut counter: usize = 0;
        while counter < FRAGMENT_COUNT
            invariant
                counter <= FRAGMENT_COUNT,
                fragments@.len() == counter as int,
                self.wf(),
                forall|i: int|
                    0 <= i < fragments@.len() ==> {
                        let f = #[trigger] fragments@[i];
                        f.wf() && f.sprite.data.position == self.sprite.data.position
                            && f.sprite.data.diameter == FRAGMENT_DIAMETER && f.sides
                            == FRAGMENT_SIDES && f.sprite.data.rotation == self.sprite.data.rotation
                            && (f.sprite.data.rotation_step == 10 || f.sprite.data.rotation_step
                            == -10) && -1000 <= f.sprite.data.velocity.x <= 1000 && -1000
                            <= f.sprite.data.velocity.y <= 1000
                    },
            decreases FRAGMENT_COUNT - counter,
        {
            let spin = random_in_range(0, 10);
            let data = SpriteData {
                position: self.sprite.data.position,
                velocity: Vector::random_limit(1000, 200),
                diameter: FRAGMENT_DIAMETER,
                rotation: self.sprite.data.rotation,
                rotation_step: if spin < 5 {
                    10
                } else {
                    -10
                },
            };
            fragments.push(Potatoid::new(data, FRAGMENT_SIDES, self.sprite.canvas));
            counter = counter + 1;
        }
        fragments
    }

    /// The commands that paint the ship: the hull, then one spark per laser.
    pub open spec fn render(self) -> Seq<DrawCmd> {
        seq![
            DrawCmd::Ship {
                x: self.sprite.data.position.x,
                y: self.sprite.data.position.y,
                heading: self.heading,
                boosting: self.is_boosting,
            },
        ] + Seq::new(
            self.lasers@.len(),
            |i: int|
                DrawCmd::Spark {
                    x: self.lasers@[i].sprite.data.position.x,
                    y: self.lasers@[i].sprite.data.position.y,
                },
        )
    }

    /// Append the ship's drawing commands; reading the ship changes nothing,
    /// so drawing is repeatable.
    pub fn draw(&self, out: &mut Vec<DrawCmd>)
        ensures
            final(out)@ == old(out)@ + self.render(),
    {
        out.push(
            DrawCmd::Ship {
                x: self.sprite.data.position.x,
                y: self.sprite.data.position.y,
                heading: self.heading,
                boosting: self.is_boosting,
            },
        );
        let n = self.lasers.len();
        let mut i: usize = 0;
        while i < n
            invariant
                i <= n,
                n == self.lasers@.len(),
                out@ == old(out)@ + seq![
                    DrawCmd::Ship {
                        x: self.sprite.data.position.x,
                        y: self.sprite.data.position.y,
                        heading: self.heading,
                        boosting: self.is_boosting,
                    },
                ] + Seq::new(
                    i as nat,
                    |j: int|
                        DrawCmd::Spark {
                            x: self.lasers@[j].sprite.data.position.x,
                            y: self.lasers@[j].sprite.data.position.y,
                        },
                ),
            decreases n - i,
        {
            let laser = self.lasers[i];
            out.push(DrawCmd::Spark { x: laser.sprite.data.position.x, y: laser.sprite.data.position.y });
            i = i + 1;
            proof {
                let render_spark = |j: int|
                    DrawCmd::Spark {
                        x: self.lasers@[j].sprite.data.position.x,
                        y: self.lasers@[j].sprite.data.position.y,
                    };
                assert(Seq::new(i as nat, render_spark) =~= Seq::new((i - 1) as nat, render_spark).push(
                    render_spark(i - 1),
                ));
            }
        }
        proof {
            assert(out@ =~= old(out)@ + self.render());
        }
    }
}

/// Clamp a speed component into [-limit, limit].
fn clamp_speed(v: i64, limit: i64) -> (r: i64)
    requires
        0 <= limit,
    ensures
        r == clamped(v as int, limit as int),
        -limit <= r <= limit,
{
    if v > limit {
        limit
    } else if v < -limit {
        -limit
    } else {
        v
    }
}

} // verus!
