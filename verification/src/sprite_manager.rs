use vstd::prelude::*;

use crate::draw::DrawCmd;
use crate::explosion::{explosion_frame, flash_of, Explosion};
use crate::interval::Interval;
use crate::laser::{laser_hits_any, lasers_struck, Laser};
use crate::potatoid::{breakup_count, breakup_outcome, potatoid_stepped, Potatoid};
use crate::rng::random_in_range;
use crate::ship::{debris_of, fired_shot, ship_frame, Ship};
use crate::sprite::{collides, CanvasDimension, Sprite, SpriteData};
use crate::text::str_eq;
use crate::trig::{cos_mrad, cos_mrad_val, sin_mrad, sin_mrad_val, UP_MRAD};
use crate::ufo::{ufo_frame, Ufo};
use crate::vector::{scale_component, scaled, Vector};

verus! {

/// The orchestrator: owns every game object, advances them each frame,
/// resolves collisions and applies the spawn/despawn rules.
pub struct SpriteManager {
    pub asteroids: Vec<Potatoid>,
    pub ship: Ship,
    pub ship_fragments: Vec<Potatoid>,
    pub ufos: Vec<Ufo>,
    pub explosions: Vec<Explosion>,
    pub is_ship_active: bool,
    pub ufo_create_frequency: u32,
    pub count_asteroids_hit: u32,
    pub count_ufo_hit: u32,
    pub create_ufo_interval: Interval,
    pub ufo_shoot_frequency: u32,
    pub canvas: CanvasDimension,
}

/// The commands that paint a row of explosions, in order.
pub open spec fn render_explosions(s: Seq<Explosion>) -> Seq<DrawCmd>
    decreases s.len(),
{
    if s.len() == 0 {
        Seq::empty()
    } else {
        render_explosions(s.drop_last()).push(s.last().render())
    }
}

/// The commands that paint a row of asteroids (or ship fragments), in order.
pub open spec fn render_potatoids(s: Seq<Potatoid>) -> Seq<DrawCmd>
    decreases s.len(),
{
    if s.len() == 0 {
        Seq::empty()
    } else {
        render_potatoids(s.drop_last()) + s.last().render()
    }
}

/// The commands that paint a row of saucers, in order.
pub open spec fn render_ufos(s: Seq<Ufo>) -> Seq<DrawCmd>
    decreases s.len(),
{
    if s.len() == 0 {
        Seq::empty()
    } else {
        render_ufos(s.drop_last()) + s.last().render()
    }
}

proof fn lemma_render_explosions_take(s: Seq<Explosion>, i: int)
    requires
        0 <= i < s.len(),
    ensures
        render_explosions(s.take(i + 1)) == render_explosions(s.take(i)).push(s[i].render()),
{
    assert(s.take(i + 1).drop_last() =~= s.take(i));
}

proof fn lemma_render_potatoids_take(s: Seq<Potatoid>, i: int)
    requires
        0 <= i < s.len(),
    ensures
        render_potatoids(s.take(i + 1)) == render_potatoids(s.take(i)) + s[i].render(),
{
    assert(s.take(i + 1).drop_last() =~= s.take(i));
}

proof fn lemma_render_ufos_take(s: Seq<Ufo>, i: int)
    requires
        0 <= i < s.len(),
    ensures
        render_ufos(s.take(i + 1)) == render_ufos(s.take(i)) + s[i].render(),
{
    assert(s.take(i + 1).drop_last() =~= s.take(i));
}

/// What `start_level` leaves behind: the requested asteroid field, an active
/// ship recentered and facing up with no debris, an armed saucer spawn timer
/// for the requested period, and everything else carried over.
pub open spec fn start_level_post(
    pre: SpriteManager,
    post: SpriteManager,
    count_asteroids: u32,
    ufo_create_frequency: u32,
    ufo_shoot_frequency: u32,
) -> bool {
    post.asteroids@.len() == count_asteroids as int && post.is_ship_active
        && post.ship_fragments@.len() == 0 && post.ship.sprite.data.position.x == pre.canvas.width
        / 2 && post.ship.sprite.data.position.y == pre.canvas.height / 2
        && post.ship.sprite.data.velocity == (Vector { x: 0i64, y: 0i64 }) && post.ship.heading
        == UP_MRAD && post.create_ufo_interval.armed && post.create_ufo_interval.duration_ms
        == ufo_create_frequency as u64 * 1000 && post.ufo_shoot_frequency == ufo_shoot_frequency
        && post.ufo_create_frequency == ufo_create_frequency && post.ufos@ == pre.ufos@
        && post.explosions@ == pre.explosions@ && post.count_asteroids_hit
        == pre.count_asteroids_hit && post.count_ufo_hit == pre.count_ufo_hit && post.canvas
        == pre.canvas && (forall|i: int|
        0 <= i < post.asteroids@.len() ==> {
            let a = (#[trigger] post.asteroids@[i]);
            40_000 <= a.sprite.data.diameter < 120_000 && 8 <= a.sides < 20
        })
}

/// What `stop_level` leaves behind: no saucers, a disarmed spawn timer, a
/// zeroed shot frequency and zeroed hit counters; the field, the ship and the
/// explosions are untouched.
pub open spec fn stop_level_post(pre: SpriteManager, post: SpriteManager) -> bool {
    post.ufos@.len() == 0 && !post.create_ufo_interval.armed && post.ufo_shoot_frequency == 0
        && post.count_asteroids_hit == 0 && post.count_ufo_hit == 0 && post.asteroids@
        == pre.asteroids@ && post.ship == pre.ship && post.ship_fragments@ == pre.ship_fragments@
        && post.explosions@ == pre.explosions@ && post.is_ship_active == pre.is_ship_active
        && post.canvas == pre.canvas
}

/// Starting a level then asking for the asteroid count answers with exactly
/// the requested count, and the ship comes back active.
pub proof fn lemma_start_level_then_count(
    pre: SpriteManager,
    post: SpriteManager,
    count_asteroids: u32,
    ufo_create_frequency: u32,
    ufo_shoot_frequency: u32,
)
    requires
        start_level_post(pre, post, count_asteroids, ufo_create_frequency, ufo_shoot_frequency),
    ensures
        post.asteroids@.len() == count_asteroids as int,
        post.is_ship_active,
{
}

/// Stopping a level leaves no saucers, and both hit counters read zero.
pub proof fn lemma_stop_level_clears(pre: SpriteManager, post: SpriteManager)
    requires
        stop_level_post(pre, post),
    ensures
        post.ufos@.len() == 0,
        post.count_asteroids_hit == 0,
        post.count_ufo_hit == 0,
{
}

/// Drawing is read-only: two draws of the same state, with no update between
/// them, paint identical command lists.
pub proof fn lemma_draw_repeatable(
    manager: SpriteManager,
    first: Seq<DrawCmd>,
    second: Seq<DrawCmd>,
)
    requires
        first == manager.render(),
        second == manager.render(),
    ensures
        first == second,
{
}


/// One asteroid as `create_asteroids` spawns it, the `index`-th of `count`:
/// parked on the spawn ring around the canvas center — its ring radius drawn
/// from [h/2, 13h/20) and projected with the fixed-point trig at the exact
/// ring angle — with a jittered velocity of at most a pixel a frame, no
/// initial rotation, a spin of a hundredth of a radian either way, a
/// diameter from [40, 120) pixels and a side count from [8, 20).
pub open spec fn ring_asteroid(
    a: Potatoid,
    index: int,
    count: int,
    canvas: CanvasDimension,
) -> bool {
    let angle = index * 6283 / count;
    a.wf() && 40_000 <= a.sprite.data.diameter < 120_000 && 8 <= a.sides < 20
        && a.sprite.data.rotation == 0 && (a.sprite.data.rotation_step == 10
        || a.sprite.data.rotation_step == -10) && -1000 <= a.sprite.data.velocity.x <= 1000
        && -1000 <= a.sprite.data.velocity.y <= 1000 && a.sprite.canvas == canvas && exists|
        radius: int,
    |
        canvas.height / 2 <= radius < canvas.height * 13 / 20 && a.sprite.data.position.x == (
        #[trigger] scaled(radius, cos_mrad_val(angle))) + canvas.width / 2
            && a.sprite.data.position.y == scaled(radius, sin_mrad_val(angle)) + canvas.height / 2
}

/// The manager with only the ship's turn rate changed.
pub open spec fn with_turn_rate(pre: SpriteManager, step: i64) -> SpriteManager {
    SpriteManager {
        ship: Ship {
            sprite: Sprite {
                data: SpriteData { rotation_step: step, ..pre.ship.sprite.data },
                ..pre.ship.sprite
            },
            ..pre.ship
        },
        ..pre
    }
}

/// The ship after the frame's first phase: integrated while active, untouched
/// while not.
pub open spec fn phase_ship(pre: SpriteManager, ship_a: Ship) -> bool {
    if pre.is_ship_active {
        ship_frame(pre.ship, ship_a)
    } else {
        ship_a == pre.ship
    }
}

/// Every piece of debris integrated once, in place.
pub open spec fn fragments_stepped(pre: Seq<Potatoid>, post: Seq<Potatoid>) -> bool {
    post.len() == pre.len() && forall|i: int|
        0 <= i < pre.len() ==> potatoid_stepped(pre[i], #[trigger] post[i])
}

/// What the asteroid scan does with one asteroid `a0`. The scan threads the
/// ship's lasers `l`, the ship-active flag `act`, the debris `fr`, the
/// surviving asteroids `sv` (kept in field order), the spawned children
/// `kid`, the explosions `ex` and the asteroid hit counter `h`; 0-subscripts
/// are before the asteroid is handled, 1-subscripts after. The asteroid
/// first integrates; a laser strike then spends one laser and counts the
/// hit, breaking the asteroid into children — or into a flash, at or below
/// the minimal break-up diameter; with no strike the asteroid survives, and
/// body contact with an active ship turns the ship into debris.
pub open spec fn asteroid_step(
    a0: Potatoid,
    canvas: CanvasDimension,
    ship_body: SpriteData,
    l0: Seq<Laser>,
    act0: bool,
    fr0: Seq<Potatoid>,
    sv0: Seq<Potatoid>,
    kid0: Seq<Potatoid>,
    ex0: Seq<Explosion>,
    h0: int,
    l1: Seq<Laser>,
    act1: bool,
    fr1: Seq<Potatoid>,
    sv1: Seq<Potatoid>,
    kid1: Seq<Potatoid>,
    ex1: Seq<Explosion>,
    h1: int,
) -> bool {
    exists|a1: Potatoid|
        #[trigger] potatoid_stepped(a0, a1) && a1.wf() && if laser_hits_any(l0, a1.sprite.data) {
            lasers_struck(l0, l1, a1.sprite.data) && act1 == act0 && fr1 == fr0 && sv1 == sv0 && h1
                == h0 + 1 && if breakup_count(a1.sprite.data.diameter as int) == 0 {
                kid1 == kid0 && ex1 == ex0.push(flash_of(a1.sprite.data, canvas))
            } else {
                ex1 == ex0 && exists|children: Seq<Potatoid>|
                    #[trigger] breakup_outcome(a1, children) && kid1 == kid0 + children
            }
        } else {
            l1 == l0 && h1 == h0 && kid1 == kid0 && ex1 == ex0 && sv1 == seq![a1] + sv0 && if act0
                && collides(ship_body, a1.sprite.data) {
                !act1 && debris_of(ship_body, fr1)
            } else {
                act1 == act0 && fr1 == fr0
            }
        }
}

/// The whole asteroid scan over `pending`, handled from the last index down,
/// so the step on `pending[0]` is the outermost link of the chain.
pub open spec fn asteroid_scan(
    pending: Seq<Potatoid>,
    canvas: CanvasDimension,
    ship_body: SpriteData,
    l0: Seq<Laser>,
    act0: bool,
    fr0: Seq<Potatoid>,
    sv0: Seq<Potatoid>,
    kid0: Seq<Potatoid>,
    ex0: Seq<Explosion>,
    h0: int,
    l2: Seq<Laser>,
    act2: bool,
    fr2: Seq<Potatoid>,
    sv2: Seq<Potatoid>,
    kid2: Seq<Potatoid>,
    ex2: Seq<Explosion>,
    h2: int,
) -> bool
    decreases pending.len(),
{
    if pending.len() == 0 {
        l2 == l0 && act2 == act0 && fr2 == fr0 && sv2 == sv0 && kid2 == kid0 && ex2 == ex0 && h2
            == h0
    } else {
        exists|
            l1: Seq<Laser>,
            act1: bool,
            fr1: Seq<Potatoid>,
            sv1: Seq<Potatoid>,
            kid1: Seq<Potatoid>,
            ex1: Seq<Explosion>,
            h1: int,
        |
            #[trigger] asteroid_step(
                pending[0],
                canvas,
                ship_body,
                l1,
                act1,
                fr1,
                sv1,
                kid1,
                ex1,
                h1,
                l2,
                act2,
                fr2,
                sv2,
                kid2,
                ex2,
                h2,
            ) && asteroid_scan(
                pending.skip(1),
                canvas,
                ship_body,
                l0,
                act0,
                fr0,
                sv0,
                kid0,
                ex0,
                h0,
                l1,
                act1,
                fr1,
                sv1,
                kid1,
                ex1,
                h1,
            )
    }
}

/// What the saucer scan does with one saucer `u0`: it retracks the ship and
/// integrates; while the ship is active, a ship laser strike removes it
/// behind a flash and counts the hit (`g`), body contact or one of its own
/// lasers striking the ship turns the ship into debris; otherwise it
/// survives into `uv`, its own strike pass spent.
pub open spec fn ufo_step(
    u0: Ufo,
    canvas: CanvasDimension,
    ship_body: SpriteData,
    l0: Seq<Laser>,
    act0: bool,
    fr0: Seq<Potatoid>,
    uv0: Seq<Ufo>,
    ex0: Seq<Explosion>,
    g0: int,
    l1: Seq<Laser>,
    act1: bool,
    fr1: Seq<Potatoid>,
    uv1: Seq<Ufo>,
    ex1: Seq<Explosion>,
    g1: int,
) -> bool {
    exists|u1: Ufo|
        #[trigger] ufo_frame(Ufo { ship_position: ship_body.position, ..u0 }, u1) && if act0 {
            if laser_hits_any(l0, u1.sprite.data) {
                lasers_struck(l0, l1, u1.sprite.data) && uv1 == uv0 && ex1 == ex0.push(
                    flash_of(u1.sprite.data, canvas),
                ) && g1 == g0 + 1 && act1 == act0 && fr1 == fr0
            } else {
                l1 == l0 && g1 == g0 && ex1 == ex0 && if collides(ship_body, u1.sprite.data) {
                    !act1 && debris_of(ship_body, fr1) && uv1 == seq![u1] + uv0
                } else {
                    exists|u2: Ufo|
                        #[trigger] lasers_struck(u1.lasers@, u2.lasers@, ship_body) && u2.sprite
                            == u1.sprite && u2.shoot_frequency == u1.shoot_frequency
                            && u2.ship_position == u1.ship_position && u2.shoot_countdown
                            == u1.shoot_countdown && uv1 == seq![u2] + uv0 && if laser_hits_any(
                            u1.lasers@,
                            ship_body,
                        ) {
                            !act1 && debris_of(ship_body, fr1)
                        } else {
                            act1 == act0 && fr1 == fr0
                        }
                }
            }
        } else {
            l1 == l0 && act1 == act0 && fr1 == fr0 && ex1 == ex0 && g1 == g0 && uv1 == seq![u1]
                + uv0
        }
}

/// The whole saucer scan over `pending`, handled from the last index down.
pub open spec fn ufo_scan(
    pending: Seq<Ufo>,
    canvas: CanvasDimension,
    ship_body: SpriteData,
    l0: Seq<Laser>,
    act0: bool,
    fr0: Seq<Potatoid>,
    uv0: Seq<Ufo>,
    ex0: Seq<Explosion>,
    g0: int,
    l2: Seq<Laser>,
    act2: bool,
    fr2: Seq<Potatoid>,
    uv2: Seq<Ufo>,
    ex2: Seq<Explosion>,
    g2: int,
) -> bool
    decreases pending.len(),
{
    if pending.len() == 0 {
        l2 == l0 && act2 == act0 && fr2 == fr0 && uv2 == uv0 && ex2 == ex0 && g2 == g0
    } else {
        exists|
            l1: Seq<Laser>,
            act1: bool,
            fr1: Seq<Potatoid>,
            uv1: Seq<Ufo>,
            ex1: Seq<Explosion>,
            g1: int,
        |
            #[trigger] ufo_step(
                pending[0],
                canvas,
                ship_body,
                l1,
                act1,
                fr1,
                uv1,
                ex1,
                g1,
                l2,
                act2,
                fr2,
                uv2,
                ex2,
                g2,
            ) && ufo_scan(
                pending.skip(1),
                canvas,
                ship_body,
                l0,
                act0,
                fr0,
                uv0,
                ex0,
                g0,
                l1,
                act1,
                fr1,
                uv1,
                ex1,
                g1,
            )
    }
}

/// A saucer as `create_ufo` spawns it: parked just beyond one canvas edge
/// (at most 1.2 pixels of jitter around the doubled edge coordinate),
/// drifting with components within [-2, 2) pixels a frame, a point body with
/// no spin, no shots yet, and armed with the given shot frequency.
pub open spec fn spawned_saucer(u: Ufo, canvas: CanvasDimension, frequency: u32) -> bool {
    u.wf() && u.shoot_frequency == frequency && u.shoot_countdown == frequency && u.lasers@.len()
        == 0 && u.sprite.canvas == canvas && u.sprite.data.diameter == 0 && u.sprite.data.rotation
        == 0 && u.sprite.data.rotation_step == 0 && -2000 <= u.sprite.data.velocity.x < 2000
        && -2000 <= u.sprite.data.velocity.y < 2000 && beyond_one_edge(
        u.sprite.data.position,
        canvas,
    )
}

/// Just beyond one of the four canvas edges, with at most 1.2 pixels of
/// jitter on each axis.
pub open spec fn beyond_one_edge(p: Vector, c: CanvasDimension) -> bool {
    (c.width - 1200 <= p.x <= c.width + 1200 && -1200 <= p.y <= 1200) || (-c.width - 1200 <= p.x
        <= -c.width + 1200 && -1200 <= p.y <= 1200) || (-1200 <= p.x <= 1200 && c.height - 1200
        <= p.y <= c.height + 1200) || (-1200 <= p.x <= 1200 && -c.height - 1200 <= p.y <= -c.height
        + 1200)
}

/// The spawn phase: either the latch did not fire and nothing changes, or it
/// was armed and fired, and exactly one fresh saucer joins the survivors
/// while the latch re-arms for the same duration.
pub open spec fn spawn_phase(
    latch0: Interval,
    frequency: u32,
    canvas: CanvasDimension,
    uv: Seq<Ufo>,
    ufos_post: Seq<Ufo>,
    latch_post: Interval,
) -> bool {
    (ufos_post == uv && latch_post == latch0) || (latch0.armed && ufos_post.len() == uv.len() + 1
        && ufos_post.take(uv.len() as int) == uv && spawned_saucer(
        ufos_post.last(),
        canvas,
        frequency,
    ) && latch_post.armed && latch_post.duration_ms == latch0.duration_ms)
}

/// The explosion retirement pass: every explosion integrates and burns one
/// frame of fade; the ones that fade this frame are gone, the rest survive
/// in order.
pub open spec fn explosions_retired(pending: Seq<Explosion>, kept: Seq<Explosion>) -> bool
    decreases pending.len(),
{
    if pending.len() == 0 {
        kept.len() == 0
    } else {
        exists|e1: Explosion|
            #[trigger] explosion_frame(pending[0], e1) && if e1.is_faded {
                explosions_retired(pending.skip(1), kept)
            } else {
                kept.len() >= 1 && kept[0] == e1 && explosions_retired(pending.skip(1), kept.skip(1))
            }
    }
}

/// All six phases of one frame, with the intermediate states named: the ship
/// integrates (`ship_a`), the debris integrates (`fr_a`), the asteroid scan
/// runs (ending at the `_c` state with survivors `sv` and children `kid`),
/// the saucer scan runs (ending at the `_d` state with survivors `uv`), the
/// spawn phase may add one saucer, and the explosions retire.
pub open spec fn update_phases(
    pre: SpriteManager,
    post: SpriteManager,
    ship_a: Ship,
    fr_a: Seq<Potatoid>,
    l_c: Seq<Laser>,
    act_c: bool,
    fr_c: Seq<Potatoid>,
    sv: Seq<Potatoid>,
    kid: Seq<Potatoid>,
    ex_c: Seq<Explosion>,
    h_c: int,
    l_d: Seq<Laser>,
    act_d: bool,
    fr_d: Seq<Potatoid>,
    uv: Seq<Ufo>,
    ex_d: Seq<Explosion>,
    g_d: int,
) -> bool {
    phase_ship(pre, ship_a) && fragments_stepped(pre.ship_fragments@, fr_a) && asteroid_scan(
        pre.asteroids@,
        pre.canvas,
        ship_a.sprite.data,
        ship_a.lasers@,
        pre.is_ship_active,
        fr_a,
        Seq::empty(),
        Seq::empty(),
        pre.explosions@,
        pre.count_asteroids_hit as int,
        l_c,
        act_c,
        fr_c,
        sv,
        kid,
        ex_c,
        h_c,
    ) && ufo_scan(
        pre.ufos@,
        pre.canvas,
        ship_a.sprite.data,
        l_c,
        act_c,
        fr_c,
        Seq::empty(),
        ex_c,
        pre.count_ufo_hit as int,
        l_d,
        act_d,
        fr_d,
        uv,
        ex_d,
        g_d,
    ) && spawn_phase(
        pre.create_ufo_interval,
        pre.ufo_shoot_frequency,
        pre.canvas,
        uv,
        post.ufos@,
        post.create_ufo_interval,
    ) && explosions_retired(ex_d, post.explosions@) && post.asteroids@ == sv + kid
        && post.ship.sprite == ship_a.sprite && post.ship.heading == ship_a.heading
        && post.ship.is_boosting == ship_a.is_boosting && post.ship.lasers@ == l_d
        && post.is_ship_active == act_d && post.ship_fragments@ == fr_d && post.count_asteroids_hit
        == h_c && post.count_ufo_hit == g_d && post.canvas == pre.canvas
        && post.ufo_create_frequency == pre.ufo_create_frequency && post.ufo_shoot_frequency
        == pre.ufo_shoot_frequency
}

/// The full per-frame relation that `update` establishes. The intermediate
/// states are existentially quantified because break-up silhouettes, debris
/// velocities, shot directions and the wall clock are drawn fresh each
/// frame; everything else — which entities die, split, spawn or survive, in
/// what order, and what the counters read — is pinned by the phases.
pub open spec fn update_frame(pre: SpriteManager, post: SpriteManager) -> bool {
    exists|
        ship_a: Ship,
        fr_a: Seq<Potatoid>,
        l_c: Seq<Laser>,
        act_c: bool,
        fr_c: Seq<Potatoid>,
        sv: Seq<Potatoid>,
        kid: Seq<Potatoid>,
        ex_c: Seq<Explosion>,
        h_c: int,
        l_d: Seq<Laser>,
        act_d: bool,
        fr_d: Seq<Potatoid>,
        uv: Seq<Ufo>,
        ex_d: Seq<Explosion>,
        g_d: int,
    |
        #[trigger] update_phases(
            pre,
            post,
            ship_a,
            fr_a,
            l_c,
            act_c,
            fr_c,
            sv,
            kid,
            ex_c,
            h_c,
            l_d,
            act_d,
            fr_d,
            uv,
            ex_d,
            g_d,
        )
}

impl SpriteManager {
    /// Every owned entity is well-formed, and no explosion lingers after it
    /// has faded: a faded explosion is removed in the frame that fades it.
    pub open spec fn wf(self) -> bool {
        self.canvas.wf() && self.ship.wf() && (forall|i: int|
            0 <= i < self.asteroids@.len() ==> (#[trigger] self.asteroids@[i]).wf()) && (forall|
            i: int,
        |
            0 <= i < self.ship_fragments@.len() ==> (#[trigger] self.ship_fragments@[i]).wf())
            && (forall|i: int| 0 <= i < self.ufos@.len() ==> (#[trigger] self.ufos@[i]).wf()) && (
        forall|i: int|
            0 <= i < self.explosions@.len() ==> (#[trigger] self.explosions@[i]).wf()
                && !self.explosions@[i].is_faded)
    }

    /// The layering order of a frame: explosions at the back, then the ship
    /// (only while active), then saucers, then ship debris, asteroids on top.
    pub open spec fn render(self) -> Seq<DrawCmd> {
        render_explosions(self.explosions@) + (if self.is_ship_active {
            self.ship.render()
        } else {
            Seq::empty()
        }) + render_ufos(self.ufos@) + render_potatoids(self.ship_fragments@) + render_potatoids(
            self.asteroids@,
        )
    }

    /// A fresh manager: an inactive ship centered on the canvas, twenty
    /// asteroids on a ring, nothing else, all counters at zero.
    pub fn new(canvas: CanvasDimension) -> (r: SpriteManager)
        requires
            canvas.wf(),
        ensures
            r.wf(),
            !r.is_ship_active,
            r.asteroids@.len() == 20,
            r.ship_fragments@.len() == 0,
            r.ufos@.len() == 0,
            r.explosions@.len() == 0,
            r.count_asteroids_hit == 0,
            r.count_ufo_hit == 0,
            !r.create_ufo_interval.armed,
            r.canvas == canvas,
            r.ship.sprite.data.position.x == canvas.width / 2,
            r.ship.sprite.data.position.y == canvas.height / 2,
            r.ship.sprite.data.velocity.x == 0,
            r.ship.sprite.data.velocity.y == 0,
            r.ship.sprite.data.diameter == 0,
            r.ship.sprite.data.rotation == 0,
            r.ship.sprite.data.rotation_step == 0,
            r.ship.heading == UP_MRAD,
            r.ship.lasers@.len() == 0,
            !r.ship.is_boosting,
    {
        let position = Vector::new(canvas.width / 2, canvas.height / 2);
        let velocity = Vector::new(0, 0);
        let ship = Ship::new(
            SpriteData { position, velocity, diameter: 0, rotation: 0, rotation_step: 0 },
            false,
            canvas,
        );
        let mut sprite_manager = SpriteManager {
            asteroids: Vec::new(),
            ship,
            ship_fragments: Vec::new(),
            ufos: Vec::new(),
            explosions: Vec::new(),
            is_ship_active: false,
            ufo_create_frequency: 0,
            count_asteroids_hit: 0,
            count_ufo_hit: 0,
            create_ufo_interval: Interval::new(),
            ufo_shoot_frequency: 0,
            canvas,
        };
        sprite_manager.create_asteroids(20);
        sprite_manager
    }

    /// Throw the current asteroid field away and spawn `count` fresh
    /// asteroids on a ring around the canvas center: ring radius jittered
    /// between half the canvas height and 1.3 times that, evenly spaced in
    /// angle, each with a jittered velocity, a diameter drawn from [40, 120)
    /// pixels, a coin-flipped spin direction and a side count from [8, 20).
    pub fn create_asteroids(&mut self, count: u32)
        requires
            old(self).wf(),
        ensures
            final(self).wf(),
            final(self).asteroids@.len() == count as int,
            forall|i: int|
                0 <= i < final(self).asteroids@.len() ==> {
                    let a = (#[trigger] final(self).asteroids@[i]);
                    40_000 <= a.sprite.data.diameter < 120_000 && 8 <= a.sides < 20
                },
            forall|i: int|
                0 <= i < final(self).asteroids@.len() ==> ring_asteroid(
                    #[trigger] final(self).asteroids@[i],
                    i,
                    count as int,
                    old(self).canvas,
                ),
            final(self).ship == old(self).ship,
            final(self).ship_fragments@ == old(self).ship_fragments@,
            final(self).ufos@ == old(self).ufos@,
            final(self).explosions@ == old(self).explosions@,
            final(self).is_ship_active == old(self).is_ship_active,
            final(self).ufo_create_frequency == old(self).ufo_create_frequency,
            final(self).count_asteroids_hit == old(self).count_asteroids_hit,
            final(self).count_ufo_hit == old(self).count_ufo_hit,
            final(self).create_ufo_interval == old(self).create_ufo_interval,
            final(self).ufo_shoot_frequency == old(self).ufo_shoot_frequency,
            final(self).canvas == old(self).canvas,
    {
        self.asteroids.clear();
        let mut counter: u32 = 0;
        while counter < count
            invariant
                counter <= count,
                self.asteroids@.len() == counter as int,
                self.canvas.wf(),
                forall|i: int|
                    0 <= i < self.asteroids@.len() ==> {
                        let a = (#[trigger] self.asteroids@[i]);
                        a.wf() && 40_000 <= a.sprite.data.diameter < 120_000 && 8 <= a.sides < 20
                    },
                forall|i: int|
                    0 <= i < self.asteroids@.len() ==> ring_asteroid(
                        #[trigger] self.asteroids@[i],
                        i,
                        count as int,
                        old(self).canvas,
                    ),
                self.ship == old(self).ship,
                self.ship_fragments@ == old(self).ship_fragments@,
                self.ufos@ == old(self).ufos@,
                self.explosions@ == old(self).explosions@,
                self.is_ship_active == old(self).is_ship_active,
                self.ufo_create_frequency == old(self).ufo_create_frequency,
                self.count_asteroids_hit == old(self).count_asteroids_hit,
                self.count_ufo_hit == old(self).count_ufo_hit,
                self.create_ufo_interval == old(self).create_ufo_interval,
                self.ufo_shoot_frequency == old(self).ufo_shoot_frequency,
                self.canvas == old(self).canvas,
                old(self).wf(),
            decreases count - counter,
        {
            let height = self.canvas.height;
            let radius = random_in_range(height / 2, height * 13 / 20);
            proof {
                assert((counter as int) * 6283 / (count as int) < 6283 && 0 <= (counter as int)
                    * 6283 / (count as int)) by (nonlinear_arith)
                    requires
                        0 <= (counter as int) < (count as int),
                ;
            }
            let angle = (counter as i64) * 6283 / (count as i64);
            let x = scale_component(radius, cos_mrad(angle));
            let y = scale_component(radius, sin_mrad(angle));
            let position = Vector::new(x, y).add(
                Vector::new(self.canvas.width / 2, self.canvas.height / 2),
            );
            let velocity = Vector::random_limit(1000, 200);
            let diameter = random_in_range(40_000, 120_000);
            let spin = random_in_range(0, 10);
            let rotation_step: i64 = if spin < 5 {
                10
            } else {
                -10
            };
            let sides_drawn = random_in_range(8, 20);
            let sides: u8 = sides_drawn as u8;
            let sprite_data = SpriteData { position, velocity, diameter, rotation: 0, rotation_step };
            let asteroid = Potatoid::new(sprite_data, sides, self.canvas);
            proof {
                let ring_angle = (counter as int) * 6283 / (count as int);
                assert(asteroid.sprite.data.position.x == scaled(
                    radius as int,
                    cos_mrad_val(ring_angle),
                ) + old(self).canvas.width / 2);
                assert(asteroid.sprite.data.position.y == scaled(
                    radius as int,
                    sin_mrad_val(ring_angle),
                ) + old(self).canvas.height / 2);
                assert(ring_asteroid(asteroid, counter as int, count as int, old(self).canvas));
            }
            self.asteroids.push(asteroid);
            counter = counter + 1;
        }
    }

    /// Spawn one saucer just beyond a uniformly chosen canvas edge, drifting
    /// inward with a jittered velocity, and remember the shot frequency its
    /// successors will use.
    pub fn create_ufo(&mut self, ufo_shoot_frequency: u32)
        requires
            old(self).wf(),
        ensures
            final(self).wf(),
            final(self).ufos@.len() == old(self).ufos@.len() + 1,
            final(self).ufos@ == old(self).ufos@.push(final(self).ufos@.last()),
            spawned_saucer(final(self).ufos@.last(), old(self).canvas, ufo_shoot_frequency),
            final(self).ufo_shoot_frequency == ufo_shoot_frequency,
            final(self).asteroids@ == old(self).asteroids@,
            final(self).ship == old(self).ship,
            final(self).ship_fragments@ == old(self).ship_fragments@,
            final(self).explosions@ == old(self).explosions@,
            final(self).is_ship_active == old(self).is_ship_active,
            final(self).ufo_create_frequency == old(self).ufo_create_frequency,
            final(self).count_asteroids_hit == old(self).count_asteroids_hit,
            final(self).count_ufo_hit == old(self).count_ufo_hit,
            final(self).create_ufo_interval == old(self).create_ufo_interval,
            final(self).canvas == old(self).canvas,
    {
        self.ufo_shoot_frequency = ufo_shoot_frequency;
        let random_corner = random_in_range(1, 5);
        let mut position = Vector::random_limit(1200, 800);
        if random_corner == 1 {
            position.x = position.x + self.canvas.width;
        } else if random_corner == 2 {
            position.x = position.x - self.canvas.width;
        } else if random_corner == 3 {
            position.y = position.y + self.canvas.height;
        } else {
            position.y = position.y - self.canvas.height;
        }
        let sprite_data = SpriteData {
            position,
            velocity: Vector::random(-2000, 2000),
            diameter: 0,
            rotation: 0,
            rotation_step: 0,
        };
        let ufo = Ufo::new(sprite_data, ufo_shoot_frequency, self.canvas);
        proof {
            assert(beyond_one_edge(position, self.canvas));
            assert(spawned_saucer(ufo, self.canvas, ufo_shoot_frequency));
        }
        self.ufos.push(ufo);
    }

    /// How many asteroids are in the field; the host polls this to detect a
    /// cleared level.
    pub fn get_asteroids_count(&self) -> (r: usize)
        ensures
            r == self.asteroids@.len(),
    {
        self.asteroids.len()
    }

    /// How many explosions are currently burning.
    pub fn get_explosions_count(&self) -> (r: usize)
        ensures
            r == self.explosions@.len(),
    {
        self.explosions.len()
    }

    /// How many saucers are in flight.
    pub fn get_ufos_count(&self) -> (r: usize)
        ensures
            r == self.ufos@.len(),
    {
        self.ufos.len()
    }

    /// How many pieces of ship debris are drifting.
    pub fn get_ship_fragments_count(&self) -> (r: usize)
        ensures
            r == self.ship_fragments@.len(),
    {
        self.ship_fragments.len()
    }

    /// Map a pressed key to ship control state: ArrowUp boosts, ArrowLeft and
    /// ArrowRight turn, space fires; any other key is a no-op.
    pub fn key_pressed(&mut self, key: &str)
        requires
            old(self).wf(),
        ensures
            final(self).wf(),
            key@ == "ArrowUp"@ ==> *final(self) == (SpriteManager {
                ship: Ship { is_boosting: true, ..old(self).ship },
                ..*old(self)
            }),
            key@ == "ArrowLeft"@ ==> *final(self) == with_turn_rate(*old(self), -100i64),
            key@ == "ArrowRight"@ ==> *final(self) == with_turn_rate(*old(self), 100i64),
            key@ == " "@ ==> final(self).ship.lasers@.len() == old(self).ship.lasers@.len() + 1
                && final(self).ship.lasers@.subrange(0, old(self).ship.lasers@.len() as int)
                == old(self).ship.lasers@
                && final(self).ship.lasers@.last() == fired_shot(
                old(self).ship.sprite,
                old(self).ship.heading as int,
                old(self).ship.sprite.data.velocity,
            ) && final(self).ship.sprite == old(self).ship.sprite
                && final(self).ship.heading == old(self).ship.heading
                && final(self).ship.is_boosting == old(self).ship.is_boosting,
            (key@ != "ArrowUp"@ && key@ != "ArrowLeft"@ && key@ != "ArrowRight"@ && key@ != " "@)
                ==> *final(self) == *old(self),
            final(self).asteroids@ == old(self).asteroids@,
            final(self).ufos@ == old(self).ufos@,
            final(self).explosions@ == old(self).explosions@,
            final(self).ship_fragments@ == old(self).ship_fragments@,
            final(self).is_ship_active == old(self).is_ship_active,
            final(self).count_asteroids_hit == old(self).count_asteroids_hit,
            final(self).count_ufo_hit == old(self).count_ufo_hit,
            final(self).canvas == old(self).canvas,
            final(self).create_ufo_interval == old(self).create_ufo_interval,
            final(self).ufo_create_frequency == old(self).ufo_create_frequency,
            final(self).ufo_shoot_frequency == old(self).ufo_shoot_frequency,
    {
        proof {
            reveal_strlit("ArrowUp");
            reveal_strlit("ArrowLeft");
            reveal_strlit("ArrowRight");
            reveal_strlit(" ");
            assert("ArrowUp"@.len() == 7);
            assert("ArrowLeft"@.len() == 9);
            assert("ArrowRight"@.len() == 10);
            assert(" "@.len() == 1);
        }
        if str_eq(key, "ArrowUp") {
            self.ship.set_boost(true);
        } else if str_eq(key, "ArrowLeft") {
            self.ship.set_rotation(-100);
        } else if str_eq(key, "ArrowRight") {
            self.ship.set_rotation(100);
        } else if str_eq(key, " ") {
            self.ship.shoot();
        }
    }

    /// Map a released key back to idle control state: ArrowUp ends the boost,
    /// ArrowLeft and ArrowRight stop the turn; any other key is a no-op.
    pub fn key_released(&mut self, key: &str)
        requires
            old(self).wf(),
        ensures
            final(self).wf(),
            key@ == "ArrowUp"@ ==> *final(self) == (SpriteManager {
                ship: Ship { is_boosting: false, ..old(self).ship },
                ..*old(self)
            }),
            (key@ == "ArrowLeft"@ || key@ == "ArrowRight"@) ==> *final(self) == with_turn_rate(
                *old(self),
                0i64,
            ),
            (key@ != "ArrowUp"@ && key@ != "ArrowLeft"@ && key@ != "ArrowRight"@) ==> *final(self)
                == *old(self),
            final(self).asteroids@ == old(self).asteroids@,
            final(self).ufos@ == old(self).ufos@,
            final(self).explosions@ == old(self).explosions@,
            final(self).ship_fragments@ == old(self).ship_fragments@,
            final(self).is_ship_active == old(self).is_ship_active,
            final(self).count_asteroids_hit == old(self).count_asteroids_hit,
            final(self).count_ufo_hit == old(self).count_ufo_hit,
            final(self).canvas == old(self).canvas,
            final(self).create_ufo_interval == old(self).create_ufo_interval,
            final(self).ufo_create_frequency == old(self).ufo_create_frequency,
            final(self).ufo_shoot_frequency == old(self).ufo_shoot_frequency,
    {
        proof {
            reveal_strlit("ArrowUp");
            reveal_strlit("ArrowLeft");
            reveal_strlit("ArrowRight");
            assert("ArrowUp"@.len() == 7);
            assert("ArrowLeft"@.len() == 9);
            assert("ArrowRight"@.len() == 10);
        }
        if str_eq(key, "ArrowUp") {
            self.ship.set_boost(false);
        } else if str_eq(key, "ArrowLeft") {
            self.ship.set_rotation(0);
        } else if str_eq(key, "ArrowRight") {
            self.ship.set_rotation(0);
        }
    }

    /// Clear asteroids and ship debris. Saucers deliberately survive a reset;
    /// clearing them is `stop_level`'s job.
    pub fn reset(&mut self)
        requires
            old(self).wf(),
        ensures
            final(self).wf(),
            *final(self) == (SpriteManager {
                asteroids: final(self).asteroids,
                ship_fragments: final(self).ship_fragments,
                ..*old(self)
            }),
            final(self).asteroids@.len() == 0,
            final(self).ship_fragments@.len() == 0,
    {
        self.asteroids.clear();
        self.ship_fragments.clear();
    }

    /// Start a round: clear the field, recenter and reactivate the ship
    /// facing up, spawn the requested asteroid field, and arm the saucer
    /// spawn timer. Hit counters and surviving saucers carry over.
    pub fn start_level(
        &mut self,
        count_asteroids: u32,
        ufo_create_frequency: u32,
        ufo_shoot_frequency: u32,
    )
        requires
            old(self).wf(),
        ensures
            start_level_post(
                *old(self),
                *final(self),
                count_asteroids,
                ufo_create_frequency,
                ufo_shoot_frequency,
            ),
            final(self).wf(),
    {
        self.ufo_shoot_frequency = ufo_shoot_frequency;
        self.ufo_create_frequency = ufo_create_frequency;
        self.reset();
        self.ship.sprite.data.position = Vector::new(self.canvas.width / 2, self.canvas.height / 2);
        self.ship.sprite.data.velocity = Vector::new(0, 0);
        self.ship.heading = UP_MRAD;
        self.is_ship_active = true;
        self.create_asteroids(count_asteroids);
        self.create_ufo_interval.set(ufo_create_frequency);
    }

    /// End a round: clear the saucers, disarm the spawn timer, zero the shot
    /// frequency and both hit counters. The field itself is untouched.
    pub fn stop_level(&mut self)
        requires
            old(self).wf(),
        ensures
            stop_level_post(*old(self), *final(self)),
            final(self).wf(),
    {
        self.ufos.clear();
        self.create_ufo_interval.cancel();
        self.ufo_shoot_frequency = 0;
        self.count_asteroids_hit = 0;
        self.count_ufo_hit = 0;
    }

    /// Place one asteroid into the field; the host uses this to stage a
    /// scenario.
    pub fn spawn_asteroid(&mut self, sprite_data: SpriteData, sides: u8)
        requires
            old(self).wf(),
            sprite_data.wf(),
            1 <= sides,
            7 <= sprite_data.diameter,
        ensures
            final(self).wf(),
            final(self).asteroids@.len() == old(self).asteroids@.len() + 1,
            final(self).asteroids@.last().sprite.data == sprite_data,
            final(self).asteroids@.last().sides == sides,
            *final(self) == (SpriteManager { asteroids: final(self).asteroids, ..*old(self) }),
    {
        let asteroid = Potatoid::new(sprite_data, sides, self.canvas);
        self.asteroids.push(asteroid);
    }

    /// Place one fresh explosion; the host uses this to stage a scenario.
    pub fn spawn_explosion(&mut self, sprite_data: SpriteData)
        requires
            old(self).wf(),
            sprite_data.wf(),
        ensures
            final(self).wf(),
            final(self).explosions@.len() == old(self).explosions@.len() + 1,
            final(self).explosions@.last().sprite.data == sprite_data,
            final(self).explosions@.last().fade_timer == crate::explosion::EXPLOSION_FADE_FRAMES,
            *final(self) == (SpriteManager { explosions: final(self).explosions, ..*old(self) }),
    {
        let explosion = Explosion::new(sprite_data, self.canvas);
        self.explosions.push(explosion);
    }

    /// The authoritative per-frame step, in this fixed order: integrate the
    /// ship (while active) and the debris; scan the asteroids from the back,
    /// breaking up any that a ship laser strikes (a hit on one at or below
    /// the minimal break-up diameter leaves an explosion instead of
    /// children) and deactivating the ship into debris on a body hit; scan
    /// the saucers from the back, retracking the ship, removing laser-struck
    /// ones behind an explosion and deactivating the ship on any touch;
    /// spawn one saucer when the latch has elapsed; and retire every
    /// explosion that faded this frame. `update_frame` states all of it.
    pub fn update(&mut self)
        requires
            old(self).wf(),
            old(self).count_asteroids_hit as int + old(self).asteroids@.len() <= u32::MAX as int,
            old(self).count_ufo_hit as int + old(self).ufos@.len() <= u32::MAX as int,
        ensures
            final(self).wf(),
            update_frame(*old(self), *final(self)),
            final(self).canvas == old(self).canvas,
            final(self).is_ship_active ==> old(self).is_ship_active,
            old(self).count_asteroids_hit <= final(self).count_asteroids_hit,
            final(self).count_asteroids_hit as int <= old(self).count_asteroids_hit as int + old(self).asteroids@.len(),
            old(self).count_ufo_hit <= final(self).count_ufo_hit,
            final(self).count_ufo_hit as int <= old(self).count_ufo_hit as int + old(self).ufos@.len(),
            forall|i: int|
                0 <= i < final(self).explosions@.len() ==> !(#[trigger] final(self).explosions@[i]).is_faded,
    {
        if self.is_ship_active {
            self.ship.update();
        }
        let ghost ship_a = self.ship;
        let ghost orig_fr = self.ship_fragments@;
        let mut fragments_done: Vec<Potatoid> = Vec::new();
        let ghost snap = *self;
        while self.ship_fragments.len() > 0
            invariant
                forall|i: int|
                    0 <= i < self.ship_fragments@.len() ==> (#[trigger] self.ship_fragments@[i]).wf(),
                forall|i: int|
                    0 <= i < fragments_done@.len() ==> (#[trigger] fragments_done@[i]).wf(),
                self.ship_fragments@.len() <= orig_fr.len(),
                self.ship_fragments@ == orig_fr.take(self.ship_fragments@.len() as int),
                fragments_stepped(orig_fr.skip(self.ship_fragments@.len() as int), fragments_done@),
                self.ship == snap.ship,
                self.asteroids == snap.asteroids,
                self.ufos == snap.ufos,
                self.explosions == snap.explosions,
                self.is_ship_active == snap.is_ship_active,
                self.ufo_create_frequency == snap.ufo_create_frequency,
                self.count_asteroids_hit == snap.count_asteroids_hit,
                self.count_ufo_hit == snap.count_ufo_hit,
                self.create_ufo_interval == snap.create_ufo_interval,
                self.ufo_shoot_frequency == snap.ufo_shoot_frequency,
                self.canvas == snap.canvas,
            decreases self.ship_fragments@.len(),
        {
            let ghost k = self.ship_fragments@.len() as int;
            let mut fragment = self.ship_fragments.pop().unwrap();
            proof {
                assert(self.ship_fragments@ =~= orig_fr.take(k - 1));
                assert(fragment == orig_fr[k - 1]);
            }
            fragment.update();
            fragments_done.insert(0, fragment);
            proof {
                let done = fragments_done@;
                let pre_part = orig_fr.skip(k - 1);
                assert(pre_part[0] == orig_fr[k - 1]);
                assert(pre_part.skip(1) =~= orig_fr.skip(k));
                assert forall|i: int| 0 <= i < pre_part.len() implies potatoid_stepped(
                    pre_part[i],
                    #[trigger] done[i],
                ) by {
                    if i > 0 {
                        assert(pre_part[i] == orig_fr.skip(k)[i - 1]);
                    }
                }
            }
        }
        core::mem::swap(&mut self.ship_fragments, &mut fragments_done);
        proof {
            assert(orig_fr.skip(0) =~= orig_fr);
        }
        let ghost fr_a = self.ship_fragments@;
        let ghost orig_ast = self.asteroids@;
        let ghost body = ship_a.sprite.data;
        let mut pending: Vec<Potatoid> = Vec::new();
        core::mem::swap(&mut pending, &mut self.asteroids);
        let mut survivors: Vec<Potatoid> = Vec::new();
        let mut spawned: Vec<Potatoid> = Vec::new();
        proof {
            assert(pending@ =~= orig_ast.take(pending@.len() as int));
            assert(orig_ast.skip(pending@.len() as int) =~= Seq::<Potatoid>::empty());
        }
        while pending.len() > 0
            invariant
                self.canvas == old(self).canvas,
                self.canvas.wf(),
                self.ship.wf(),
                self.ship.sprite == ship_a.sprite,
                self.ship.heading == ship_a.heading,
                self.ship.is_boosting == ship_a.is_boosting,
                body == ship_a.sprite.data,
                forall|i: int| 0 <= i < pending@.len() ==> (#[trigger] pending@[i]).wf(),
                forall|i: int| 0 <= i < survivors@.len() ==> (#[trigger] survivors@[i]).wf(),
                forall|i: int| 0 <= i < spawned@.len() ==> (#[trigger] spawned@[i]).wf(),
                forall|i: int|
                    0 <= i < self.ship_fragments@.len() ==> (#[trigger] self.ship_fragments@[i]).wf(),
                forall|i: int| 0 <= i < self.ufos@.len() ==> (#[trigger] self.ufos@[i]).wf(),
                forall|i: int|
                    0 <= i < self.explosions@.len() ==> (#[trigger] self.explosions@[i]).wf()
                        && !self.explosions@[i].is_faded,
                self.ufos@ == old(self).ufos@,
                self.asteroids@.len() == 0,
                self.is_ship_active ==> old(self).is_ship_active,
                old(self).count_asteroids_hit <= self.count_asteroids_hit,
                self.count_asteroids_hit as int + pending@.len() <= old(self).count_asteroids_hit as int + old(self).asteroids@.len(),
                old(self).count_asteroids_hit as int + old(self).asteroids@.len() <= u32::MAX as int,
                self.count_ufo_hit == old(self).count_ufo_hit,
                self.create_ufo_interval == old(self).create_ufo_interval,
                self.ufo_shoot_frequency == old(self).ufo_shoot_frequency,
                self.ufo_create_frequency == old(self).ufo_create_frequency,
                pending@ == orig_ast.take(pending@.len() as int),
                orig_ast == old(self).asteroids@,
                asteroid_scan(
                    orig_ast.skip(pending@.len() as int),
                    old(self).canvas,
                    body,
                    ship_a.lasers@,
                    old(self).is_ship_active,
                    fr_a,
                    Seq::empty(),
                    Seq::empty(),
                    old(self).explosions@,
                    old(self).count_asteroids_hit as int,
                    self.ship.lasers@,
                    self.is_ship_active,
                    self.ship_fragments@,
                    survivors@,
                    spawned@,
                    self.explosions@,
                    self.count_asteroids_hit as int,
                ),
            decreases pending@.len(),
        {
            let ghost k = pending@.len() as int;
            let ghost l_p = self.ship.lasers@;
            let ghost act_p = self.is_ship_active;
            let ghost fr_p = self.ship_fragments@;
            let ghost sv_p = survivors@;
            let ghost kid_p = spawned@;
            let ghost ex_p = self.explosions@;
            let ghost h_p = self.count_asteroids_hit as int;
            let mut asteroid = pending.pop().unwrap();
            proof {
                assert(pending@ =~= orig_ast.take(k - 1));
                assert(asteroid == orig_ast[k - 1]);
            }
            asteroid.update();
            let ghost a1 = asteroid;
            if self.ship.lasers_collide_with(asteroid.sprite) {
                let mut children = asteroid.break_up();
                let ghost kids = children@;
                if children.len() == 0 {
                    let explosion = Explosion::new(asteroid.sprite.data, self.canvas);
                    self.explosions.push(explosion);
                } else {
                    spawned.append(&mut children);
                }
                self.count_asteroids_hit = self.count_asteroids_hit + 1;
                proof {
                    if kids.len() > 0 {
                        assert(breakup_outcome(a1, kids));
                        assert(spawned@ == kid_p + kids);
                    }
                }
            } else {
                if self.is_ship_active && self.ship.collide_with(asteroid.sprite) {
                    self.is_ship_active = false;
                    self.ship_fragments = self.ship.break_up();
                }
                survivors.insert(0, asteroid);
                proof {
                    assert(survivors@ =~= seq![a1] + sv_p);
                }
            }
            proof {
                assert(potatoid_stepped(orig_ast[k - 1], a1));
                assert(asteroid_step(
                    orig_ast[k - 1],
                    old(self).canvas,
                    body,
                    l_p,
                    act_p,
                    fr_p,
                    sv_p,
                    kid_p,
                    ex_p,
                    h_p,
                    self.ship.lasers@,
                    self.is_ship_active,
                    self.ship_fragments@,
                    survivors@,
                    spawned@,
                    self.explosions@,
                    self.count_asteroids_hit as int,
                ));
                assert(orig_ast.skip(k - 1)[0] == orig_ast[k - 1]);
                assert(orig_ast.skip(k - 1).skip(1) =~= orig_ast.skip(k));
                assert(asteroid_scan(
                    orig_ast.skip(k - 1),
                    old(self).canvas,
                    body,
                    ship_a.lasers@,
                    old(self).is_ship_active,
                    fr_a,
                    Seq::empty(),
                    Seq::empty(),
                    old(self).explosions@,
                    old(self).count_asteroids_hit as int,
                    self.ship.lasers@,
                    self.is_ship_active,
                    self.ship_fragments@,
                    survivors@,
                    spawned@,
                    self.explosions@,
                    self.count_asteroids_hit as int,
                ));
            }
        }
        proof {
            assert(orig_ast.skip(0) =~= orig_ast);
        }
        let ghost l_c = self.ship.lasers@;
        let ghost act_c = self.is_ship_active;
        let ghost fr_c = self.ship_fragments@;
        let ghost sv = survivors@;
        let ghost kid = spawned@;
        let ghost ex_c = self.explosions@;
        let ghost h_c = self.count_asteroids_hit as int;
        survivors.append(&mut spawned);
        core::mem::swap(&mut self.asteroids, &mut survivors);
        let ghost orig_ufos = self.ufos@;
        let mut pending_ufos: Vec<Ufo> = Vec::new();
        core::mem::swap(&mut pending_ufos, &mut self.ufos);
        let mut ufo_survivors: Vec<Ufo> = Vec::new();
        proof {
            assert(pending_ufos@ =~= orig_ufos.take(pending_ufos@.len() as int));
            assert(orig_ufos.skip(pending_ufos@.len() as int) =~= Seq::<Ufo>::empty());
        }
        while pending_ufos.len() > 0
            invariant
                self.canvas == old(self).canvas,
                self.canvas.wf(),
                self.ship.wf(),
                self.ship.sprite == ship_a.sprite,
                self.ship.heading == ship_a.heading,
                self.ship.is_boosting == ship_a.is_boosting,
                body == ship_a.sprite.data,
                forall|i: int| 0 <= i < pending_ufos@.len() ==> (#[trigger] pending_ufos@[i]).wf(),
                forall|i: int| 0 <= i < ufo_survivors@.len() ==> (#[trigger] ufo_survivors@[i]).wf(),
                forall|i: int|
                    0 <= i < self.asteroids@.len() ==> (#[trigger] self.asteroids@[i]).wf(),
                forall|i: int|
                    0 <= i < self.ship_fragments@.len() ==> (#[trigger] self.ship_fragments@[i]).wf(),
                forall|i: int|
                    0 <= i < self.explosions@.len() ==> (#[trigger] self.explosions@[i]).wf()
                        && !self.explosions@[i].is_faded,
                self.ufos@.len() == 0,
                self.asteroids@ == sv + kid,
                self.count_asteroids_hit as int == h_c,
                self.is_ship_active ==> old(self).is_ship_active,
                old(self).count_asteroids_hit <= self.count_asteroids_hit,
                self.count_asteroids_hit as int <= old(self).count_asteroids_hit as int + old(self).asteroids@.len(),
                old(self).count_ufo_hit <= self.count_ufo_hit,
                self.count_ufo_hit as int + pending_ufos@.len() <= old(self).count_ufo_hit as int + old(self).ufos@.len(),
                old(self).count_ufo_hit as int + old(self).ufos@.len() <= u32::MAX as int,
                self.create_ufo_interval == old(self).create_ufo_interval,
                self.ufo_shoot_frequency == old(self).ufo_shoot_frequency,
                self.ufo_create_frequency == old(self).ufo_create_frequency,
                pending_ufos@ == orig_ufos.take(pending_ufos@.len() as int),
                orig_ufos == old(self).ufos@,
                ufo_scan(
                    orig_ufos.skip(pending_ufos@.len() as int),
                    old(self).canvas,
                    body,
                    l_c,
                    act_c,
                    fr_c,
                    Seq::empty(),
                    ex_c,
                    old(self).count_ufo_hit as int,
                    self.ship.lasers@,
                    self.is_ship_active,
                    self.ship_fragments@,
                    ufo_survivors@,
                    self.explosions@,
                    self.count_ufo_hit as int,
                ),
            decreases pending_ufos@.len(),
        {
            let ghost k = pending_ufos@.len() as int;
            let ghost l_p = self.ship.lasers@;
            let ghost act_p = self.is_ship_active;
            let ghost fr_p = self.ship_fragments@;
            let ghost uv_p = ufo_survivors@;
            let ghost ex_p = self.explosions@;
            let ghost g_p = self.count_ufo_hit as int;
            let mut ufo = pending_ufos.pop().unwrap();
            proof {
                assert(pending_ufos@ =~= orig_ufos.take(k - 1));
                assert(ufo == orig_ufos[k - 1]);
            }
            ufo.set_ship_position(self.ship.sprite.data.position);
            proof {
                assert(ufo == Ufo { ship_position: body.position, ..orig_ufos[k - 1] });
            }
            ufo.update();
            let ghost u1 = ufo;
            let mut removed = false;
            if self.is_ship_active {
                if self.ship.lasers_collide_with(ufo.sprite) {
                    self.count_ufo_hit = self.count_ufo_hit + 1;
                    let explosion = Explosion::new(ufo.sprite.data, self.canvas);
                    self.explosions.push(explosion);
                    removed = true;
                } else if self.ship.collide_with(ufo.sprite) {
                    self.ship_fragments = self.ship.break_up();
                    self.is_ship_active = false;
                } else if ufo.lasers_collide_with(self.ship.sprite) {
                    self.ship_fragments = self.ship.break_up();
                    self.is_ship_active = false;
                }
            }
            if !removed {
                ufo_survivors.insert(0, ufo);
                proof {
                    assert(ufo_survivors@ =~= seq![ufo] + uv_p);
                }
            }
            proof {
                assert(ufo_frame(Ufo { ship_position: body.position, ..orig_ufos[k - 1] }, u1));
                assert(ufo_step(
                    orig_ufos[k - 1],
                    old(self).canvas,
                    body,
                    l_p,
                    act_p,
                    fr_p,
                    uv_p,
                    ex_p,
                    g_p,
                    self.ship.lasers@,
                    self.is_ship_active,
                    self.ship_fragments@,
                    ufo_survivors@,
                    self.explosions@,
                    self.count_ufo_hit as int,
                ));
                assert(orig_ufos.skip(k - 1)[0] == orig_ufos[k - 1]);
                assert(orig_ufos.skip(k - 1).skip(1) =~= orig_ufos.skip(k));
                assert(ufo_scan(
                    orig_ufos.skip(k - 1),
                    old(self).canvas,
                    body,
                    l_c,
                    act_c,
                    fr_c,
                    Seq::empty(),
                    ex_c,
                    old(self).count_ufo_hit as int,
                    self.ship.lasers@,
                    self.is_ship_active,
                    self.ship_fragments@,
                    ufo_survivors@,
                    self.explosions@,
                    self.count_ufo_hit as int,
                ));
            }
        }
        proof {
            assert(orig_ufos.skip(0) =~= orig_ufos);
        }
        core::mem::swap(&mut self.ufos, &mut ufo_survivors);
        let ghost l_d = self.ship.lasers@;
        let ghost act_d = self.is_ship_active;
        let ghost fr_d = self.ship_fragments@;
        let ghost uv = self.ufos@;
        let ghost ex_d = self.explosions@;
        let ghost g_d = self.count_ufo_hit as int;
        let ghost latch0 = self.create_ufo_interval;
        if self.create_ufo_interval.is_ellapsed() {
            let frequency = self.ufo_shoot_frequency;
            self.create_ufo(frequency);
            proof {
                assert(self.ufos@.take(uv.len() as int) =~= uv);
            }
        }
        let ghost snap_e = *self;
        let ghost orig_exp = self.explosions@;
        let mut pending_explosions: Vec<Explosion> = Vec::new();
        core::mem::swap(&mut pending_explosions, &mut self.explosions);
        proof {
            assert(pending_explosions@ =~= orig_exp.take(pending_explosions@.len() as int));
            assert(orig_exp.skip(pending_explosions@.len() as int) =~= Seq::<Explosion>::empty());
        }
        while pending_explosions.len() > 0
            invariant
                forall|i: int|
                    0 <= i < pending_explosions@.len() ==> (#[trigger] pending_explosions@[i]).wf(),
                forall|i: int|
                    0 <= i < self.explosions@.len() ==> (#[trigger] self.explosions@[i]).wf()
                        && !self.explosions@[i].is_faded,
                pending_explosions@.len() <= orig_exp.len(),
                pending_explosions@ == orig_exp.take(pending_explosions@.len() as int),
                explosions_retired(orig_exp.skip(pending_explosions@.len() as int), self.explosions@),
                self.ship == snap_e.ship,
                self.asteroids == snap_e.asteroids,
                self.ufos == snap_e.ufos,
                self.ship_fragments == snap_e.ship_fragments,
                self.is_ship_active == snap_e.is_ship_active,
                self.ufo_create_frequency == snap_e.ufo_create_frequency,
                self.count_asteroids_hit == snap_e.count_asteroids_hit,
                self.count_ufo_hit == snap_e.count_ufo_hit,
                self.create_ufo_interval == snap_e.create_ufo_interval,
                self.ufo_shoot_frequency == snap_e.ufo_shoot_frequency,
                self.canvas == snap_e.canvas,
            decreases pending_explosions@.len(),
        {
            let ghost k = pending_explosions@.len() as int;
            let ghost kept_p = self.explosions@;
            let mut explosion = pending_explosions.pop().unwrap();
            proof {
                assert(pending_explosions@ =~= orig_exp.take(k - 1));
                assert(explosion == orig_exp[k - 1]);
            }
            explosion.update();
            let ghost e1 = explosion;
            if !explosion.is_faded {
                self.explosions.insert(0, explosion);
                proof {
                    assert(self.explosions@ =~= seq![e1] + kept_p);
                    assert(self.explosions@.skip(1) =~= kept_p);
                }
            }
            proof {
                assert(explosion_frame(orig_exp[k - 1], e1));
                assert(orig_exp.skip(k - 1)[0] == orig_exp[k - 1]);
                assert(orig_exp.skip(k - 1).skip(1) =~= orig_exp.skip(k));
                assert(explosions_retired(orig_exp.skip(k - 1), self.explosions@));
            }
        }
        proof {
            assert(orig_exp.skip(0) =~= orig_exp);
            assert(phase_ship(*old(self), ship_a));
            assert(fragments_stepped(old(self).ship_fragments@, fr_a));
            assert(asteroid_scan(
                old(self).asteroids@,
                old(self).canvas,
                ship_a.sprite.data,
                ship_a.lasers@,
                old(self).is_ship_active,
                fr_a,
                Seq::empty(),
                Seq::empty(),
                old(self).explosions@,
                old(self).count_asteroids_hit as int,
                l_c,
                act_c,
                fr_c,
                sv,
                kid,
                ex_c,
                h_c,
            ));
            assert(ufo_scan(
                old(self).ufos@,
                old(self).canvas,
                ship_a.sprite.data,
                l_c,
                act_c,
                fr_c,
                Seq::empty(),
                ex_c,
                old(self).count_ufo_hit as int,
                l_d,
                act_d,
                fr_d,
                uv,
                ex_d,
                g_d,
            ));
            assert(spawn_phase(
                old(self).create_ufo_interval,
                old(self).ufo_shoot_frequency,
                old(self).canvas,
                uv,
                self.ufos@,
                self.create_ufo_interval,
            ));
            assert(explosions_retired(ex_d, self.explosions@));
            assert(self.asteroids@ == sv + kid);
            assert(update_phases(
                *old(self),
                *self,
                ship_a,
                fr_a,
                l_c,
                act_c,
                fr_c,
                sv,
                kid,
                ex_c,
                h_c,
                l_d,
                act_d,
                fr_d,
                uv,
                ex_d,
                g_d,
            ));
        }
    }

    /// Paint one frame as a command list in the fixed layering order that
    /// `render` states. Drawing reads the state and changes nothing.
    pub fn draw(&self) -> (commands: Vec<DrawCmd>)
        ensures
            commands@ == self.render(),
    {
        let mut commands: Vec<DrawCmd> = Vec::new();
        let explosion_count = self.explosions.len();
        let mut i: usize = 0;
        while i < explosion_count
            invariant
                i <= explosion_count,
                explosion_count == self.explosions@.len(),
                commands@ == render_explosions(self.explosions@.take(i as int)),
            decreases explosion_count - i,
        {
            self.explosions[i].draw(&mut commands);
            i = i + 1;
            proof {
                lemma_render_explosions_take(self.explosions@, i - 1);
            }
        }
        proof {
            assert(self.explosions@.take(explosion_count as int) =~= self.explosions@);
        }
        if self.is_ship_active {
            self.ship.draw(&mut commands);
        }
        let ghost head = commands@;
        let ufo_count = self.ufos.len();
        let mut i: usize = 0;
        while i < ufo_count
            invariant
                i <= ufo_count,
                ufo_count == self.ufos@.len(),
                commands@ == head + render_ufos(self.ufos@.take(i as int)),
            decreases ufo_count - i,
        {
            self.ufos[i].draw(&mut commands);
            i = i + 1;
            proof {
                lemma_render_ufos_take(self.ufos@, i - 1);
            }
        }
        proof {
            assert(self.ufos@.take(ufo_count as int) =~= self.ufos@);
        }
        let ghost head = commands@;
        let fragment_count = self.ship_fragments.len();
        let mut i: usize = 0;
        while i < fragment_count
            invariant
                i <= fragment_count,
                fragment_count == self.ship_fragments@.len(),
                commands@ == head + render_potatoids(self.ship_fragments@.take(i as int)),
            decreases fragment_count - i,
        {
            self.ship_fragments[i].draw(&mut commands);
            i = i + 1;
            proof {
                lemma_render_potatoids_take(self.ship_fragments@, i - 1);
            }
        }
        proof {
            assert(self.ship_fragments@.take(fragment_count as int) =~= self.ship_fragments@);
        }
        let ghost head = commands@;
        let asteroid_count = self.asteroids.len();
        let mut counter: usize = 0;
        while counter < asteroid_count
            invariant
                counter <= asteroid_count,
                asteroid_count == self.asteroids@.len(),
                commands@ == head + render_potatoids(self.asteroids@.take(counter as int)),
            decreases asteroid_count - counter,
        {
            self.asteroids[counter].draw(&mut commands);
            counter = counter + 1;
            proof {
                lemma_render_potatoids_take(self.asteroids@, counter - 1);
            }
        }
        proof {
            assert(self.asteroids@.take(asteroid_count as int) =~= self.asteroids@);
            assert(commands@ =~= self.render());
        }
        commands
    }

    /// Reserved extension point: a later version may freeze the spawn timer
    /// and the per-frame deltas here.
    pub fn pause(&self) {
    }

    /// Reserved extension point, the counterpart of `pause`.
    pub fn unpause(&self) {
    }
}

} // verus!
