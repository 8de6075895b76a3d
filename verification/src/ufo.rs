use vstd::prelude::*;

use crate::draw::DrawCmd;
use crate::laser::{advance_lasers, laser_hits_any, lasers_advanced, lasers_struck, strike_lasers, Laser, LASER_DIAMETER, LASER_LIFE_FRAMES, LASER_SPEED};
use crate::sprite::{collides, stepped, CanvasDimension, Sprite, SpriteData};
use crate::vector::Vector;

verus! {

/// The absolute value.
pub open spec fn abs_val(v: int) -> int {
    if v >= 0 {
        v
    } else {
        -v
    }
}

/// One axis of a shot aimed from `source` at `target`: the offset scaled so
/// the larger axis moves at the laser speed (5000 milli-pixels a frame), the
/// sign toward the target; straight down when the two coincide.
pub open spec fn aim_axis(d: int, other: int, coincide_speed: int) -> int {
    let longer = if abs_val(d) >= abs_val(other) {
        abs_val(d)
    } else {
        abs_val(other)
    };
    if longer == 0 {
        coincide_speed
    } else if d >= 0 {
        abs_val(d) * 5000 / longer
    } else {
        -(abs_val(d) * 5000 / longer)
    }
}

/// The laser a saucer fires: at the saucer's position, aimed at the tracked
/// ship position with the larger axis at the laser speed, a fresh full life.
pub open spec fn aimed_shot(sprite: Sprite, target: Vector) -> Laser {
    let dx = target.x - sprite.data.position.x;
    let dy = target.y - sprite.data.position.y;
    Laser {
        sprite: Sprite {
            data: SpriteData {
                position: sprite.data.position,
                velocity: Vector {
                    x: aim_axis(dx, dy, 0) as i64,
                    y: aim_axis(dy, dx, 5000) as i64,
                },
                diameter: LASER_DIAMETER,
                rotation: 0,
                rotation_step: 0,
            },
            canvas: sprite.canvas,
        },
        life: LASER_LIFE_FRAMES,
    }
}

/// The relation between a saucer before and after one frame: the sprite
/// integrates, the frequencies and tracked position are kept, every laser
/// advances (expired ones retiring, survivors in order), and the shot
/// countdown either runs down or re-arms behind a fresh laser aimed at the
/// tracked ship position.
pub open spec fn ufo_frame(pre: Ufo, post: Ufo) -> bool {
    post.wf() && stepped(pre.sprite, post.sprite) && post.shoot_frequency == pre.shoot_frequency
        && post.ship_position == pre.ship_position && exists|advanced: Seq<Laser>|
        #[trigger] lasers_advanced(pre.lasers@, advanced) && if pre.shoot_countdown == 0 {
            post.lasers@ == advanced.push(aimed_shot(post.sprite, pre.ship_position))
                && post.shoot_countdown == pre.shoot_frequency
        } else {
            post.lasers@ == advanced && post.shoot_countdown == pre.shoot_countdown - 1
        }
}

/// An autonomous hostile sprite: it tracks the ship's position (a read-only
/// copy, refreshed each frame by the manager) and periodically fires a laser
/// toward it.
pub struct Ufo {
    pub sprite: Sprite,
    pub shoot_frequency: u32,
    pub ship_position: Vector,
    pub lasers: Vec<Laser>,
    pub shoot_countdown: u32,
}

impl Ufo {
    pub open spec fn wf(self) -> bool {
        self.sprite.wf() && self.ship_position.wf() && forall|i: int|
            0 <= i < self.lasers@.len() ==> (#[trigger] self.lasers@[i]).wf()
    }

    /// `shoot_frequency` is in frames between shots.
    pub fn new(data: SpriteData, shoot_frequency: u32, canvas: CanvasDimension) -> (r: Ufo)
        requires
            data.wf(),
            canvas.wf(),
        ensures
            r.wf(),
            r.sprite == (Sprite { data, canvas }),
            r.shoot_frequency == shoot_frequency,
            r.shoot_countdown == shoot_frequency,
            r.lasers@.len() == 0,
    {
        Ufo {
            sprite: Sprite::new(data, canvas),
            shoot_frequency,
            ship_position: Vector { x: 0, y: 0 },
            lasers: Vec::new(),
            shoot_countdown: shoot_frequency,
        }
    }

    /// Refresh the tracked copy of the ship's position.
    pub fn set_ship_position(&mut self, position: Vector)
        requires
            position.wf(),
        ensures
            final(self).ship_position == position,
            final(self).sprite == old(self).sprite,
            final(self).shoot_frequency == old(self).shoot_frequency,
            final(self).lasers == old(self).lasers,
            final(self).shoot_countdown == old(self).shoot_countdown,
            old(self).wf() ==> final(self).wf(),
    {
        self.ship_position = position;
    }

    /// One frame: the sprite integrates, every laser advances (expired ones
    /// retire), and when the shot countdown runs out a fresh laser leaves
    /// toward the tracked ship position and the countdown re-arms.
    pub fn update(&mut self)
        requires
            old(self).wf(),
        ensures
            final(self).wf(),
            ufo_frame(*old(self), *final(self)),
    {
        self.sprite.update();
        advance_lasers(&mut self.lasers);
        let ghost advanced = self.lasers@;
        if self.shoot_countdown == 0 {
            let velocity = aim(self.sprite.data.position, self.ship_position);
            let data = SpriteData {
                position: self.sprite.data.position,
                velocity,
                diameter: LASER_DIAMETER,
                rotation: 0,
                rotation_step: 0,
            };
            let shot = Laser { sprite: Sprite::new(data, self.sprite.canvas), life: LASER_LIFE_FRAMES };
            proof {
                assert(shot == aimed_shot(self.sprite, self.ship_position));
            }
            self.lasers.push(shot);
            self.shoot_countdown = self.shoot_frequency;
        } else {
            self.shoot_countdown = self.shoot_countdown - 1;
        }
        proof {
            assert(lasers_advanced(old(self).lasers@, advanced));
        }
    }

    /// The saucer's circular body test against another sprite's state.
    pub fn collide_with(&self, sprite: Sprite) -> (r: bool)
        requires
            self.wf(),
            sprite.wf(),
        ensures
            r == collides(self.sprite.data, sprite.data),
    {
        self.sprite.collide_with(sprite)
    }

    /// Whether one of the saucer's lasers strikes the target; a striking
    /// laser is spent.
    pub fn lasers_collide_with(&mut self, sprite: Sprite) -> (hit: bool)
        requires
            old(self).wf(),
            sprite.wf(),
        ensures
            hit == laser_hits_any(old(self).lasers@, sprite.data),
            lasers_struck(old(self).lasers@, final(self).lasers@, sprite.data),
            final(self).sprite == old(self).sprite,
            final(self).shoot_frequency == old(self).shoot_frequency,
            final(self).ship_position == old(self).ship_position,
            final(self).shoot_countdown == old(self).shoot_countdown,
            final(self).wf(),
    {
        strike_lasers(&mut self.lasers, sprite.data)
    }

    /// The commands that paint the saucer: the hull, then one spark per laser.
    pub open spec fn render(self) -> Seq<DrawCmd> {
        seq![
            DrawCmd::Saucer { x: self.sprite.data.position.x, y: self.sprite.data.position.y },
        ] + Seq::new(
            self.lasers@.len(),
            |i: int|
                DrawCmd::Spark {
                    x: self.lasers@[i].sprite.data.position.x,
                    y: self.lasers@[i].sprite.data.position.y,
                },
        )
    }

    /// Append the saucer's drawing commands; reading a saucer changes
    /// nothing, so drawing is repeatable.
    pub fn draw(&self, out: &mut Vec<DrawCmd>)
        ensures
            final(out)@ == old(out)@ + self.render(),
    {
        out.push(
            DrawCmd::Saucer { x: self.sprite.data.position.x, y: self.sprite.data.position.y },
        );
        let n = self.lasers.len();
        let mut i: usize = 0;
        while i < n
            invariant
                i <= n,
                n == self.lasers@.len(),
                out@ == old(out)@ + seq![
                    DrawCmd::Saucer {
                        x: self.sprite.data.position.x,
                        y: self.sprite.data.position.y,
                    },
                ] + Seq::new(
                    i as nat,
                    |j: int|
                        DrawCmd::Spark {
                            x: self.lasers@[j].sprite.data.position.x,
                            y: self.lasers@[j].sprite.data.position.y,
                        },
                ),
            decreases n - i,
        {
            let laser = self.lasers[i];
            out.push(DrawCmd::Spark { x: laser.sprite.data.position.x, y: laser.sprite.data.position.y });
            i = i + 1;
            proof {
                let render_spark = |j: int|
                    DrawCmd::Spark {
                        x: self.lasers@[j].sprite.data.position.x,
                        y: self.lasers@[j].sprite.data.position.y,
                    };
                assert(Seq::new(i as nat, render_spark) =~= Seq::new((i - 1) as nat, render_spark).push(
                    render_spark(i - 1),
                ));
            }
        }
        proof {
            assert(out@ =~= old(out)@ + self.render());
        }
    }
}

/// The velocity of a shot fired from `source` toward `target`: the offset to
/// the target scaled so its larger axis moves at the laser speed. Aiming is
/// approximate; each component stays within the laser speed and never points
/// away from the target.
fn aim(source: Vector, target: Vector) -> (v: Vector)
    requires
        source.wf(),
        target.wf(),
    ensures
        v.x == aim_axis(target.x - source.x, target.y - source.y, 0),
        v.y == aim_axis(target.y - source.y, target.x - source.x, 5000),
        -LASER_SPEED <= v.x <= LASER_SPEED,
        -LASER_SPEED <= v.y <= LASER_SPEED,
    {
    let dx = target.x - source.x;
    let dy = target.y - source.y;
    let adx = if dx >= 0 {
        dx
    } else {
        -dx
    };
    let ady = if dy >= 0 {
        dy
    } else {
        -dy
    };
    let longer = if adx >= ady {
        adx
    } else {
        ady
    };
    if longer == 0 {
        return Vector { x: 0, y: LASER_SPEED };
    }
    proof {
        assert(0 <= adx * 5000 / (longer as int) <= 5000 && 0 <= ady * 5000 / (longer as int)
            <= 5000) by (nonlinear_arith)
            requires
                0 < longer,
                0 <= adx <= longer,
                0 <= ady <= longer,
        ;
    }
    let sx = adx * 5000 / longer;
    let sy = ady * 5000 / longer;
    Vector {
        x: if dx >= 0 {
            sx
        } else {
            -sx
        },
        y: if dy >= 0 {
            sy
        } else {
            -sy
        },
    }
}

} // verus!
