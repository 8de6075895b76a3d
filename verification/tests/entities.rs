use potatoids::laser::{Laser, LASER_LIFE_FRAMES};
use potatoids::potatoid::Potatoid;
use potatoids::ship::Ship;
use potatoids::sprite::{CanvasDimension, Sprite, SpriteData};
use potatoids::trig::{cos_mrad, sin_mrad, step_angle, TAU_MRAD, UP_MRAD};
use potatoids::ufo::Ufo;
use potatoids::vector::Vector;

fn canvas() -> CanvasDimension {
    CanvasDimension { width: 400_000, height: 400_000 }
}

fn still_data(x: i64, y: i64, diameter: i64) -> SpriteData {
    SpriteData {
        position: Vector { x, y },
        velocity: Vector { x: 0, y: 0 },
        diameter,
        rotation: 0,
        rotation_step: 0,
    }
}

#[test]
fn fixed_point_trig_hits_the_cardinal_points() {
    assert_eq!(sin_mrad(0), 0);
    assert_eq!(cos_mrad(0), 1000);
    assert!(sin_mrad(1571) > 990);
    assert!(cos_mrad(3142) < -990);
    assert!(sin_mrad(4712) < -990);
}

#[test]
fn step_angle_folds_back_into_one_turn() {
    assert_eq!(step_angle(6280, 10), 7);
    assert_eq!(step_angle(5, -10), TAU_MRAD - 5);
    assert_eq!(step_angle(100, 50), 150);
}

#[test]
fn shooting_spawns_a_laser_at_the_ship_that_flies_up() {
    let mut ship = Ship::new(still_data(200_000, 200_000, 0), false, canvas());
    assert_eq!(ship.heading, UP_MRAD);
    ship.shoot();
    assert_eq!(ship.lasers.len(), 1);
    let laser = ship.lasers[0];
    assert_eq!(laser.sprite.data.position, Vector { x: 200_000, y: 200_000 });
    assert_eq!(laser.life, LASER_LIFE_FRAMES);
    assert!(laser.sprite.data.velocity.y < -4_900);
}

#[test]
fn a_spent_laser_is_removed_by_the_hit_that_it_scores() {
    let mut ship = Ship::new(still_data(200_000, 200_000, 0), false, canvas());
    ship.shoot();
    let target = Sprite::new(still_data(200_000, 195_000, 60_000), canvas());
    assert!(ship.lasers_collide_with(target));
    assert_eq!(ship.lasers.len(), 0);
    let far_target = Sprite::new(still_data(10_000, 10_000, 60_000), canvas());
    ship.shoot();
    assert!(!ship.lasers_collide_with(far_target));
    assert_eq!(ship.lasers.len(), 1);
}

#[test]
fn lasers_expire_after_their_lifetime() {
    let mut ship = Ship::new(still_data(200_000, 200_000, 0), false, canvas());
    ship.shoot();
    for _frame in 0..(LASER_LIFE_FRAMES - 1) {
        ship.update();
    }
    assert_eq!(ship.lasers.len(), 1);
    ship.update();
    assert_eq!(ship.lasers.len(), 0);
}

#[test]
fn boosting_accelerates_the_ship_along_its_heading() {
    let mut ship = Ship::new(still_data(200_000, 200_000, 0), true, canvas());
    ship.update();
    assert!(ship.sprite.data.velocity.y < 0);
    assert_eq!(ship.sprite.data.velocity.x, 0);
}

#[test]
fn a_saucer_with_zero_frequency_fires_every_frame_toward_the_ship() {
    let mut ufo = Ufo::new(still_data(100_000, 100_000, 0), 0, canvas());
    ufo.set_ship_position(Vector { x: 300_000, y: 100_000 });
    ufo.update();
    assert_eq!(ufo.lasers.len(), 1);
    let laser = ufo.lasers[0];
    assert_eq!(laser.sprite.data.velocity, Vector { x: 5_000, y: 0 });
    ufo.update();
    assert_eq!(ufo.lasers.len(), 2);
}

#[test]
fn a_destroyed_ship_leaves_four_fragments_where_it_was() {
    let ship = Ship::new(still_data(123_000, 77_000, 0), false, canvas());
    let fragments = ship.break_up();
    assert_eq!(fragments.len(), 4);
    for fragment in &fragments {
        assert_eq!(fragment.sprite.data.position, Vector { x: 123_000, y: 77_000 });
        assert_eq!(fragment.sprite.data.diameter, 20_000);
    }
}

#[test]
fn the_strike_spends_the_last_laser_within_reach() {
    let mut ship = Ship::new(still_data(200_000, 200_000, 0), false, canvas());
    let near = Laser {
        sprite: Sprite::new(still_data(200_000, 200_000, 2_000), canvas()),
        life: 10,
    };
    let far = Laser {
        sprite: Sprite::new(still_data(10_000, 10_000, 2_000), canvas()),
        life: 20,
    };
    ship.lasers.push(near);
    ship.lasers.push(far);
    ship.lasers.push(near);
    let target = Sprite::new(still_data(200_000, 200_000, 60_000), canvas());
    assert!(ship.lasers_collide_with(target));
    assert_eq!(ship.lasers.len(), 2);
    assert_eq!(ship.lasers[0].sprite.data.position, near.sprite.data.position);
    assert_eq!(ship.lasers[1].sprite.data.position, far.sprite.data.position);
}

#[test]
fn advancing_keeps_the_lasers_in_order() {
    let mut ship = Ship::new(still_data(200_000, 200_000, 0), false, canvas());
    let slow = Laser {
        sprite: Sprite::new(still_data(100_000, 100_000, 2_000), canvas()),
        life: 10,
    };
    let quick = Laser {
        sprite: Sprite::new(still_data(300_000, 300_000, 2_000), canvas()),
        life: 20,
    };
    ship.lasers.push(slow);
    ship.lasers.push(quick);
    ship.update();
    assert_eq!(ship.lasers.len(), 2);
    assert_eq!(ship.lasers[0].life, 9);
    assert_eq!(ship.lasers[1].life, 19);
}

#[test]
fn break_up_children_drift_gently() {
    let asteroid = Potatoid::new(still_data(0, 0, 90_000), 10, canvas());
    for child in &asteroid.break_up() {
        let v = child.sprite.data.velocity;
        assert!(-1_200 <= v.x && v.x <= 1_200 && -1_200 <= v.y && v.y <= 1_200);
    }
}

#[test]
fn ship_debris_inherits_rotation_and_spins() {
    let ship = Ship::new(still_data(123_000, 77_000, 0), false, canvas());
    for fragment in &ship.break_up() {
        assert_eq!(fragment.sides, 8);
        assert_eq!(fragment.sprite.data.rotation, 0);
        let spin = fragment.sprite.data.rotation_step;
        assert!(spin == 10 || spin == -10);
        let v = fragment.sprite.data.velocity;
        assert!(-1_000 <= v.x && v.x <= 1_000 && -1_000 <= v.y && v.y <= 1_000);
    }
}
