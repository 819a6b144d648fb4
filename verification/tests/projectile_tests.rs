use libplen::constants::{BULLET_ARM_TIME, DELTA_TIME, LASER_ACTIVE_TIME, MISSILE_LIFE_TIME};
use libplen::hurricane::{Hurricane, HurricaneStatus};
use libplen::math::vec2;
use libplen::player::{Color, PlaneType, Player};
use libplen::projectiles::{Bullet, LaserBeam, Missile, ProjectileKind};

fn player_at(id: u64, x: i64, y: i64) -> Player {
    Player::new(id, vec2(x, y), PlaneType::HowdyCowboy, Color::Green, format!("P{}", id))
}

#[test]
fn bullet_new_draws_an_id_and_wraps_its_position() {
    let bullet = Bullet::new(vec2(-5, 10), vec2(1, 2), 30, 4, "D".to_string());
    assert!(bullet.id < u64::MAX);
    assert_eq!(bullet.position, vec2(2_999_995, 10));
    assert_eq!(bullet.velocity, vec2(1, 2));
    assert_eq!(bullet.damage, 30);
    assert_eq!(bullet.owner, 4);
    assert_eq!(bullet.owner_name, "D");
    assert_eq!(bullet.lifetime, 0);
    assert_eq!(bullet.traveled_distance, 0);
}

#[test]
fn bullet_velocity_is_held_to_the_limit() {
    let bullet =
        Bullet::with_id(1, vec2(0, 0), vec2(i64::MAX, i64::MIN), 30, 4, "D".to_string());
    assert_eq!(bullet.velocity, vec2(100_000_000, -100_000_000));
}

#[test]
fn bullet_flies_straight_without_wind() {
    let mut bullet = Bullet::with_id(7, vec2(0, 0), vec2(652_500, 0), 50, 1, "A".to_string());
    bullet.update(DELTA_TIME, &None);
    assert_eq!(bullet.position, vec2(6_525, 0));
    assert_eq!(bullet.velocity, vec2(652_500, 0));
    assert_eq!(bullet.traveled_distance, 6_525);
    assert_eq!(bullet.lifetime, 10_000);
    assert_eq!(bullet.get_position(), vec2(6_525, 0));
    assert_eq!(bullet.get_id(), 7);
    assert_eq!(bullet.get_shooter(), 1);
    assert_eq!(bullet.get_shooter_name(), "A");
    assert_eq!(bullet.get_damage(), 50);
}

#[test]
fn bullet_is_armed_only_after_the_arming_delay() {
    let mut bullet = Bullet::with_id(7, vec2(0, 0), vec2(652_500, 0), 50, 1, "A".to_string());
    assert!(!bullet.is_armed());
    for _ in 0..3 {
        bullet.update(DELTA_TIME, &None);
        assert!(!bullet.is_armed());
    }
    assert_eq!(bullet.lifetime, BULLET_ARM_TIME);
    bullet.update(1, &None);
    assert_eq!(bullet.lifetime, BULLET_ARM_TIME + 1);
    assert!(bullet.is_armed());
}

#[test]
fn bullet_is_done_beyond_its_range() {
    let mut bullet = Bullet::with_id(7, vec2(0, 0), vec2(652_500, 0), 50, 1, "A".to_string());
    for _ in 0..137 {
        bullet.update(DELTA_TIME, &None);
        assert!(!bullet.is_done());
    }
    assert_eq!(bullet.traveled_distance, 893_925);
    bullet.update(DELTA_TIME, &None);
    assert_eq!(bullet.traveled_distance, 900_450);
    assert!(bullet.is_done());
}

#[test]
fn bullet_is_blown_by_the_wind() {
    let mut hurricane = Hurricane::new(vec2(1_500_000, 1_500_000), vec2(0, 0));
    hurricane.size = 1_000_000;
    hurricane.status = HurricaneStatus::Sustaining(1_000_000);
    let mut bullet = Bullet::with_id(
        7,
        vec2(2_000_000, 1_500_000),
        vec2(600_000, 0),
        50,
        1,
        "A".to_string(),
    );
    bullet.update(DELTA_TIME, &Some(hurricane));
    assert_eq!(bullet.velocity, vec2(600_000, 60_000));
    assert_eq!(bullet.position, vec2(2_006_000, 1_500_600));
    assert_eq!(bullet.traveled_distance, 6_029);
}

#[test]
fn bullet_counters_stop_at_their_limits() {
    let mut bullet = Bullet::with_id(7, vec2(0, 0), vec2(0, 0), 50, 1, "A".to_string());
    bullet.lifetime = 1_000_000_000_000 - 5;
    bullet.traveled_distance = 1_000_000_000_000 - 5;
    bullet.velocity = vec2(100_000_000, 0);
    bullet.update(DELTA_TIME, &None);
    assert_eq!(bullet.lifetime, 1_000_000_000_000);
    assert_eq!(bullet.traveled_distance, 1_000_000_000_000);
}

#[test]
fn laser_beam_deals_damage_then_decays_then_goes() {
    let mut beam = LaserBeam::new(vec2(5, 6), 7_000, 500, 3, "C".to_string());
    assert_eq!(beam.angle, 716);
    assert_eq!(beam.lifetime, LASER_ACTIVE_TIME);
    assert!(beam.is_dealing_damage());
    assert_eq!(beam.decay_progress(), -66);
    beam.update(DELTA_TIME);
    assert!(beam.is_dealing_damage());
    beam.update(DELTA_TIME);
    assert_eq!(beam.lifetime, 0);
    assert!(!beam.is_dealing_damage());
    assert!(!beam.should_be_removed());
    assert_eq!(beam.decay_progress(), 0);
    for _ in 0..15 {
        beam.update(DELTA_TIME);
    }
    assert_eq!(beam.decay_progress(), 500);
    for _ in 0..15 {
        beam.update(DELTA_TIME);
        assert!(!beam.should_be_removed());
        assert!(!beam.is_dealing_damage());
    }
    assert_eq!(beam.lifetime, -300_000);
    assert_eq!(beam.decay_progress(), 1_000);
    beam.update(DELTA_TIME);
    assert!(beam.should_be_removed());
    for _ in 0..1_000 {
        beam.update(u16::MAX);
    }
    assert_eq!(beam.lifetime, -1_000_000);
}

#[test]
fn laser_beam_reaches_along_the_nose() {
    let beam = LaserBeam::new(vec2(1_000_000, 1_000_000), 0, 500, 3, "C".to_string());
    assert!(beam.reaches(vec2(1_000_000, 1_000_000)));
    assert!(beam.reaches(vec2(1_000_000, 800_000)));
    assert!(beam.reaches(vec2(1_029_000, 901_000)));
    assert!(beam.reaches(vec2(1_000_000, 703_000 - 29_999)));
    assert!(!beam.reaches(vec2(1_000_000, 703_000 - 30_000)));
    assert!(!beam.reaches(vec2(1_000_000, 1_030_000)));
    assert!(beam.reaches(vec2(1_000_000, 1_029_999)));
    assert!(!beam.reaches(vec2(1_030_000, 901_000)));
    assert!(!beam.reaches(vec2(2_500_000, 2_500_000)));
}

#[test]
fn laser_beam_reaches_across_the_edge() {
    let beam = LaserBeam::new(vec2(1_000_000, 100_000), 0, 500, 3, "C".to_string());
    assert!(beam.reaches(vec2(1_000_000, 2_900_000)));
    assert!(!beam.reaches(vec2(1_000_000, 2_700_000)));
}

#[test]
fn missile_new_draws_an_id_and_holds_speed_and_angle() {
    let missile = Missile::new(vec2(3_000_001, -1), -1_571, 40, 2, 1_000_000, "B".to_string());
    assert!(missile.id < u64::MAX);
    assert_eq!(missile.position, vec2(1, 2_999_999));
    assert_eq!(missile.angle, 4_713);
    assert_eq!(missile.speed, 6_000);
    assert_eq!(missile.angular_velocity, 0);
    assert_eq!(missile.lifetime, 0);
    let slow = Missile::with_id(1, vec2(0, 0), 0, 40, 2, -5, "B".to_string());
    assert_eq!(slow.speed, 0);
    assert!(slow.is_armed());
    assert_eq!(slow.get_id(), 1);
    assert_eq!(slow.get_shooter(), 2);
    assert_eq!(slow.get_shooter_name(), "B");
    assert_eq!(slow.get_damage(), 40);
    assert_eq!(slow.get_position(), vec2(0, 0));
}

#[test]
fn missile_locks_on_to_the_nearest_player_but_its_owner() {
    let missile = Missile::with_id(1, vec2(100, 100), 0, 40, 2, 0, "B".to_string());
    assert_eq!(missile.find_target(&vec![]), None);
    assert_eq!(missile.find_target(&vec![player_at(2, 100, 100)]), None);
    let players = vec![
        player_at(3, 500_000, 100),
        player_at(2, 110, 100),
        player_at(4, 2_900_200, 100),
        player_at(5, 100, 2_900_100),
        player_at(6, 100_100, 100),
    ];
    assert_eq!(missile.find_target(&players), Some(2));
    let tied = vec![player_at(3, 200, 100), player_at(4, 100, 200), player_at(5, 0, 100)];
    assert_eq!(missile.find_target(&tied), Some(0));
}

#[test]
fn missile_steers_toward_its_target() {
    let mut missile =
        Missile::with_id(1, vec2(1_000_000, 1_000_000), 0, 40, 2, 0, "B".to_string());
    let left = vec![player_at(3, 1_000_000, 1_100_000)];
    missile.update(&left, DELTA_TIME);
    assert_eq!(missile.angular_velocity, 157);
    assert_eq!(missile.angle, 1);
    assert_eq!(missile.speed, 5);
    assert_eq!(missile.position, vec2(1_000_000, 1_000_000));
    assert_eq!(missile.lifetime, 10_000);
    let mut other = Missile::with_id(1, vec2(1_000_000, 1_000_000), 0, 40, 2, 0, "B".to_string());
    let right = vec![player_at(3, 1_000_000, 900_000)];
    other.update(&right, DELTA_TIME);
    assert_eq!(other.angular_velocity, -157);
    assert_eq!(other.angle, 6_283);
}

#[test]
fn missile_heading_closes_in_on_a_steady_bearing() {
    let mut missile =
        Missile::with_id(1, vec2(1_000_000, 1_000_000), 0, 40, 2, 0, "B".to_string());
    let players = vec![player_at(3, 1_000_000, 1_100_000)];
    let mut turn_left = 1_571;
    let mut last_rate = 0;
    for _ in 0..40 {
        missile.update(&players, DELTA_TIME);
        assert!(missile.angular_velocity >= last_rate);
        last_rate = missile.angular_velocity;
        let now = 1_571 - missile.angle;
        assert!(0 <= now && now <= turn_left);
        turn_left = now;
    }
    assert!(turn_left < 1_571);
}

#[test]
fn missile_flies_straight_without_a_target() {
    let mut missile =
        Missile::with_id(1, vec2(2_999_999, 0), 0, 40, 2, 6_000, "B".to_string());
    missile.angular_velocity = 0;
    missile.update(&vec![player_at(2, 0, 0)], u16::MAX);
    assert_eq!(missile.angular_velocity, 0);
    assert_eq!(missile.angle, 0);
    assert_eq!(missile.speed, 6_000);
    assert_eq!(missile.position, vec2(392, 0));
}

#[test]
fn missile_is_done_after_its_life_time() {
    let mut missile = Missile::with_id(1, vec2(0, 0), 0, 40, 2, 0, "B".to_string());
    for _ in 0..300 {
        missile.update(&vec![], DELTA_TIME);
        assert!(!missile.is_done());
    }
    assert_eq!(missile.lifetime, MISSILE_LIFE_TIME);
    missile.update(&vec![], DELTA_TIME);
    assert!(missile.is_done());
    assert_eq!(missile.speed, 1_505);
}

#[test]
fn projectile_kind_forwards_to_its_variant() {
    let mut bullet = ProjectileKind::Bullet(Bullet::with_id(
        7,
        vec2(0, 0),
        vec2(652_500, 0),
        50,
        1,
        "A".to_string(),
    ));
    let mut missile =
        ProjectileKind::Missile(Missile::with_id(8, vec2(9, 9), 0, 40, 2, 0, "B".to_string()));
    bullet.update(&vec![], DELTA_TIME, &None);
    missile.update(&vec![], DELTA_TIME, &None);
    assert_eq!(bullet.get_position(), vec2(6_525, 0));
    assert_eq!(missile.get_position(), vec2(9, 9));
    assert_eq!((bullet.get_id(), missile.get_id()), (7, 8));
    assert_eq!((bullet.get_shooter(), missile.get_shooter()), (1, 2));
    assert_eq!(bullet.get_shooter_name(), "A");
    assert_eq!(missile.get_shooter_name(), "B");
    assert_eq!((bullet.get_damage(), missile.get_damage()), (50, 40));
    assert_eq!((bullet.is_armed(), missile.is_armed()), (false, true));
    assert_eq!((bullet.is_done(), missile.is_done()), (false, false));
}
