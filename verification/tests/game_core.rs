use potatoids::explosion::Explosion;
use potatoids::interval::Interval;
use potatoids::potatoid::Potatoid;
use potatoids::sprite::{CanvasDimension, Sprite, SpriteData};
use potatoids::sprite_manager::SpriteManager;
use potatoids::vector::Vector;

fn canvas() -> CanvasDimension {
    CanvasDimension { width: 400_000, height: 400_000 }
}

fn still_data(x: i64, y: i64, diameter: i64) -> SpriteData {
    SpriteData {
        position: Vector { x, y },
        velocity: Vector { x: 0, y: 0 },
        diameter,
        rotation: 0,
        rotation_step: 0,
    }
}

#[test]
fn create_asteroids_spawns_exactly_the_requested_field() {
    let mut manager = SpriteManager::new(canvas());
    assert_eq!(manager.get_asteroids_count(), 20);
    manager.create_asteroids(5);
    assert_eq!(manager.get_asteroids_count(), 5);
    for asteroid in &manager.asteroids {
        let diameter = asteroid.sprite.data.diameter;
        assert!(40_000 <= diameter && diameter < 120_000);
        assert!(8 <= asteroid.sides && asteroid.sides < 20);
        assert_eq!(asteroid.vertex_radii.len(), asteroid.sides as usize);
        for &radius in &asteroid.vertex_radii {
            assert!(diameter * 35 / 100 <= radius && radius < diameter * 50 / 100);
        }
    }
}

#[test]
fn break_up_at_minimal_diameter_destroys_outright() {
    let asteroid = Potatoid::new(still_data(1000, 2000, 60_000), 9, canvas());
    assert!(asteroid.break_up().is_empty());
    let small = Potatoid::new(still_data(1000, 2000, 41_000), 9, canvas());
    assert!(small.break_up().is_empty());
}

#[test]
fn break_up_of_middling_asteroid_gives_two_children() {
    let asteroid = Potatoid::new(still_data(7000, -3000, 80_000), 12, canvas());
    let children = asteroid.break_up();
    assert_eq!(children.len(), 2);
    for child in &children {
        assert_eq!(child.sprite.data.diameter, 80_000 * 5 / 8);
        assert_eq!(child.sprite.data.diameter, 50_000);
        assert_eq!(child.sprite.data.position, asteroid.sprite.data.position);
        assert_eq!(child.sprite.data.rotation, asteroid.sprite.data.rotation);
        assert_eq!(child.sides, 12);
    }
}

#[test]
fn break_up_of_large_asteroid_gives_three_children() {
    let asteroid = Potatoid::new(still_data(0, 0, 120_000), 8, canvas());
    let children = asteroid.break_up();
    assert_eq!(children.len(), 3);
    for child in &children {
        assert_eq!(child.sprite.data.diameter, 120_000 * 5 / 12);
        assert_eq!(child.sprite.data.diameter, 50_000);
        assert_eq!(child.sides, 8);
    }
}

#[test]
fn drawing_twice_without_update_paints_the_same_commands() {
    let mut manager = SpriteManager::new(canvas());
    manager.start_level(3, 100_000, 5);
    manager.key_pressed(" ");
    let first = manager.draw();
    let second = manager.draw();
    assert_eq!(first, second);
    assert!(!first.is_empty());
}

#[test]
fn laser_hit_on_minimal_asteroid_explodes_it_and_counts() {
    let mut manager = SpriteManager::new(canvas());
    manager.start_level(0, 100_000, 5);
    assert_eq!(manager.get_asteroids_count(), 0);
    manager.spawn_asteroid(still_data(200_000, 200_000, 60_000), 8);
    manager.key_pressed(" ");
    assert_eq!(manager.ship.lasers.len(), 1);
    let asteroids_before = manager.get_asteroids_count();
    let explosions_before = manager.get_explosions_count();
    let hits_before = manager.count_asteroids_hit;
    manager.update();
    assert_eq!(manager.get_asteroids_count(), asteroids_before - 1);
    assert_eq!(manager.get_explosions_count(), explosions_before + 1);
    assert_eq!(manager.count_asteroids_hit, hits_before + 1);
}

#[test]
fn laser_hit_on_large_asteroid_splits_it_instead() {
    let mut manager = SpriteManager::new(canvas());
    manager.start_level(0, 100_000, 5);
    manager.spawn_asteroid(still_data(200_000, 200_000, 80_000), 8);
    manager.key_pressed(" ");
    manager.update();
    assert_eq!(manager.get_asteroids_count(), 2);
    assert_eq!(manager.get_explosions_count(), 0);
    assert_eq!(manager.count_asteroids_hit, 1);
}

#[test]
fn faded_explosion_is_gone_after_the_update_that_fades_it() {
    let mut manager = SpriteManager::new(canvas());
    manager.create_asteroids(0);
    manager.spawn_explosion(still_data(100_000, 100_000, 50_000));
    for _frame in 0..29 {
        manager.update();
        assert_eq!(manager.get_explosions_count(), 1);
    }
    manager.update();
    assert_eq!(manager.get_explosions_count(), 0);
}

#[test]
fn start_level_reports_the_requested_count_and_wakes_the_ship() {
    let mut manager = SpriteManager::new(canvas());
    assert!(!manager.is_ship_active);
    manager.start_level(7, 100_000, 5);
    assert_eq!(manager.get_asteroids_count(), 7);
    assert!(manager.is_ship_active);
    assert_eq!(manager.ship.sprite.data.position, Vector { x: 200_000, y: 200_000 });
}

#[test]
fn stop_level_clears_saucers_and_counters() {
    let mut manager = SpriteManager::new(canvas());
    manager.create_ufo(5);
    manager.create_ufo(5);
    assert_eq!(manager.get_ufos_count(), 2);
    manager.count_asteroids_hit = 3;
    manager.count_ufo_hit = 2;
    manager.stop_level();
    assert_eq!(manager.get_ufos_count(), 0);
    assert_eq!(manager.count_asteroids_hit, 0);
    assert_eq!(manager.count_ufo_hit, 0);
    assert_eq!(manager.get_asteroids_count(), 20);
}

#[test]
fn reset_clears_the_field_but_saucers_survive() {
    let mut manager = SpriteManager::new(canvas());
    manager.create_ufo(5);
    manager.reset();
    assert_eq!(manager.get_asteroids_count(), 0);
    assert_eq!(manager.get_ship_fragments_count(), 0);
    assert_eq!(manager.get_ufos_count(), 1);
}

#[test]
fn key_handling_maps_the_four_keys_and_ignores_the_rest() {
    let mut manager = SpriteManager::new(canvas());
    manager.key_pressed("ArrowLeft");
    assert_eq!(manager.ship.sprite.data.rotation_step, -100);
    manager.key_pressed("ArrowRight");
    assert_eq!(manager.ship.sprite.data.rotation_step, 100);
    manager.key_released("ArrowRight");
    assert_eq!(manager.ship.sprite.data.rotation_step, 0);
    manager.key_pressed("ArrowUp");
    assert!(manager.ship.is_boosting);
    manager.key_released("ArrowUp");
    assert!(!manager.ship.is_boosting);
    manager.key_pressed("Escape");
    assert!(!manager.ship.is_boosting);
    assert_eq!(manager.ship.lasers.len(), 0);
    manager.key_pressed(" ");
    assert_eq!(manager.ship.lasers.len(), 1);
}

#[test]
fn ship_collision_with_asteroid_turns_it_into_debris() {
    let mut manager = SpriteManager::new(canvas());
    manager.start_level(0, 100_000, 5);
    manager.spawn_asteroid(still_data(200_000, 200_000, 80_000), 8);
    manager.update();
    assert!(!manager.is_ship_active);
    assert_eq!(manager.get_ship_fragments_count(), 4);
}

#[test]
fn explosion_fades_exactly_when_its_timer_runs_out() {
    let mut explosion = Explosion::new(still_data(0, 0, 10_000), canvas());
    assert_eq!(explosion.fade_timer, 30);
    assert!(!explosion.is_faded);
    explosion.update();
    assert_eq!(explosion.fade_timer, 29);
    assert!(!explosion.is_faded);
    let mut last = Explosion { sprite: explosion.sprite, fade_timer: 1, is_faded: false };
    last.update();
    assert!(last.is_faded);
    assert_eq!(last.fade_timer, 0);
}

#[test]
fn interval_elapses_exactly_at_its_deadline_and_rearms() {
    let mut latch = Interval { armed: true, start_ms: 100, duration_ms: 50 };
    assert!(!latch.check_elapsed_at(149));
    assert_eq!(latch.start_ms, 100);
    assert!(latch.check_elapsed_at(150));
    assert_eq!(latch.start_ms, 150);
    assert!(latch.armed);
    latch.cancel();
    assert!(!latch.check_elapsed_at(1_000_000));
}

#[test]
fn sprite_wraps_to_the_opposite_edge() {
    let mut sprite = Sprite::new(still_data(399_000, 200_000, 10_000), canvas());
    sprite.data.velocity = Vector { x: 7_000, y: 0 };
    sprite.update();
    assert_eq!(sprite.data.position.x, -5_000);
    assert_eq!(sprite.data.position.y, 200_000);
    sprite.data.velocity = Vector { x: -1_000, y: 0 };
    sprite.update();
    assert_eq!(sprite.data.position.x, 405_000);
}

#[test]
fn vector_add_is_component_wise() {
    let sum = Vector::new(3, -4).add(Vector::new(10, 20));
    assert_eq!(sum, Vector { x: 13, y: 16 });
}

#[test]
fn a_quiet_update_keeps_the_asteroids_in_order() {
    let mut manager = SpriteManager::new(canvas());
    manager.create_asteroids(0);
    manager.spawn_asteroid(still_data(50_000, 50_000, 41_000), 8);
    manager.spawn_asteroid(still_data(300_000, 300_000, 42_000), 9);
    manager.update();
    assert_eq!(manager.get_asteroids_count(), 2);
    assert_eq!(manager.asteroids[0].sprite.data.diameter, 41_000);
    assert_eq!(manager.asteroids[1].sprite.data.diameter, 42_000);
}

#[test]
fn a_spawned_saucer_starts_beyond_one_edge() {
    let mut manager = SpriteManager::new(canvas());
    manager.create_ufo(7);
    let saucer = &manager.ufos[0];
    assert_eq!(saucer.shoot_frequency, 7);
    assert_eq!(saucer.shoot_countdown, 7);
    assert!(saucer.lasers.is_empty());
    let x = saucer.sprite.data.position.x;
    let y = saucer.sprite.data.position.y;
    let w = 400_000;
    let h = 400_000;
    let near = |v: i64, c: i64| (v - c).abs() <= 1_200;
    assert!(
        (near(x, w) && near(y, 0))
            || (near(x, -w) && near(y, 0))
            || (near(x, 0) && near(y, h))
            || (near(x, 0) && near(y, -h))
    );
    let v = saucer.sprite.data.velocity;
    assert!(-2_000 <= v.x && v.x < 2_000 && -2_000 <= v.y && v.y < 2_000);
}

#[test]
fn spawned_asteroids_sit_still_but_spin() {
    let mut manager = SpriteManager::new(canvas());
    manager.create_asteroids(6);
    for asteroid in &manager.asteroids {
        assert_eq!(asteroid.sprite.data.rotation, 0);
        let spin = asteroid.sprite.data.rotation_step;
        assert!(spin == 10 || spin == -10);
        let v = asteroid.sprite.data.velocity;
        assert!(-1_000 <= v.x && v.x <= 1_000 && -1_000 <= v.y && v.y <= 1_000);
    }
}
