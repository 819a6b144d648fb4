use libplen::constants::{
    COLLISION_GRACE_PERIOD, DELTA_TIME, LASER_DAMAGE, LASER_FIRE_TIME, PLAYER_COOLDOWN,
    QUARTER_TURN,
};
use libplen::math::vec2;
use libplen::player::{Color, PlaneType, Player};
use libplen::powerups::{AppliedPowerup, PowerUpKind};
use libplen::projectiles::ProjectileKind;

fn pilot(id: u64, plane: PlaneType, name: &str) -> Player {
    Player::new(id, vec2(1_000_000, 1_000_000), plane, Color::Red, name.to_string())
}

fn kinds(player: &Player) -> Vec<PowerUpKind> {
    player.powerups.iter().map(|p| p.kind).collect()
}

#[test]
fn plane_types_have_their_figures() {
    let planes = [
        PlaneType::SukaBlyat,
        PlaneType::HowdyCowboy,
        PlaneType::ElPolloRomero,
        PlaneType::AchtungBlitzKrieg,
    ];
    let speed: Vec<i64> = planes.iter().map(|p| p.speed()).collect();
    assert_eq!(speed, vec![1_050, 1_000, 1_100, 1_000]);
    let max_speed: Vec<i64> = planes.iter().map(|p| p.max_speed()).collect();
    assert_eq!(max_speed, vec![360_000, 320_000, 400_000, 320_000]);
    let agility: Vec<i64> = planes.iter().map(|p| p.agility()).collect();
    assert_eq!(agility, vec![500_000, 400_000, 500_000, 400_000]);
    let firepower: Vec<i16> = planes.iter().map(|p| p.firepower()).collect();
    assert_eq!(firepower, vec![50, 30, 30, 40]);
    let acceleration: Vec<i64> = planes.iter().map(|p| p.acceleration()).collect();
    assert_eq!(acceleration, vec![220_000, 300_000, 240_000, 260_000]);
    let health: Vec<i16> = planes.iter().map(|p| p.health()).collect();
    assert_eq!(health, vec![165, 195, 180, 180]);
    let resilience: Vec<i64> = planes.iter().map(|p| p.resilience()).collect();
    assert_eq!(resilience, vec![900, 700, 800, 900]);
    let names: Vec<&str> = planes.iter().map(|p| p.name()).collect();
    assert_eq!(
        names,
        vec!["Suka Blyat", "Howdy Cowboy", "El Pollo Romero", "Achtung Blitzkrieg"]
    );
}

#[test]
fn colors_have_their_components() {
    assert_eq!(Color::Red.rgba(), (255, 0, 0, 255));
    assert_eq!(Color::Green.rgba(), (0, 255, 0, 255));
    assert_eq!(Color::Blue.rgba(), (0, 0, 255, 255));
    assert_eq!(Color::Yellow.rgba(), (255, 255, 0, 255));
    assert_eq!(Color::Purple.rgba(), (255, 0, 255, 255));
}

#[test]
fn new_player_is_at_rest_with_a_gun() {
    let player = Player::new(
        9,
        vec2(-1, 3_000_005),
        PlaneType::HowdyCowboy,
        Color::Blue,
        "Howdy".to_string(),
    );
    assert_eq!(player.id, 9);
    assert_eq!(player.position, vec2(2_999_999, 5));
    assert_eq!(player.health, 195);
    assert_eq!(player.max_health(), 195);
    assert_eq!(player.speed, 0);
    assert_eq!(player.rotation, 0);
    assert_eq!(player.angular_velocity, 0);
    assert_eq!(player.cooldown, 0);
    assert_eq!(
        player.powerups,
        vec![AppliedPowerup { kind: PowerUpKind::Gun, duration_left: None }]
    );
    assert_eq!(player.available_powerup, None);
    assert_eq!(player.laser_charge_time, None);
    assert!(!player.lasering_this_frame);
    assert_eq!(player.time_to_next_collision, COLLISION_GRACE_PERIOD);
    assert_eq!(player.name, "Howdy");
    assert!(!player.has_died());
    assert!(!player.is_invisible());
    assert!(!player.invincibility_is_on());
}

#[test]
fn damage_passes_what_resilience_lets_through() {
    let mut suka = pilot(1, PlaneType::SukaBlyat, "A");
    assert!(suka.damage_player(50));
    assert_eq!(suka.health, 160);
    let mut howdy = pilot(2, PlaneType::HowdyCowboy, "B");
    assert!(howdy.damage_player(50));
    assert_eq!(howdy.health, 180);
    assert!(howdy.damage_player(LASER_DAMAGE));
    assert_eq!(howdy.health, 30);
    assert!(howdy.damage_player(LASER_DAMAGE));
    assert_eq!(howdy.health, 0);
    assert!(howdy.has_died());
    let mut pollo = pilot(3, PlaneType::ElPolloRomero, "C");
    pollo.damage_player(9);
    assert_eq!(pollo.health, 179);
    pollo.damage_player(4);
    assert_eq!(pollo.health, 179);
}

#[test]
fn health_stays_in_range_after_any_sequence() {
    let mut player = pilot(1, PlaneType::HowdyCowboy, "B");
    let amounts: [i16; 12] =
        [i16::MAX, i16::MIN, 500, -500, 0, 1, -1, 32_000, -32_000, 40, 195, i16::MIN];
    for &first in amounts.iter() {
        for &second in amounts.iter() {
            player.damage_player(first);
            assert!(0 <= player.health && player.health <= player.max_health());
            player.heal_player(second);
            assert!(0 <= player.health && player.health <= player.max_health());
            player.heal_player(first);
            assert!(0 <= player.health && player.health <= player.max_health());
            player.damage_player(second);
            assert!(0 <= player.health && player.health <= player.max_health());
        }
    }
}

#[test]
fn healing_stops_at_full_health() {
    let mut player = pilot(1, PlaneType::SukaBlyat, "A");
    player.health = 100;
    player.heal_player(40);
    assert_eq!(player.health, 140);
    player.heal_player(40);
    assert_eq!(player.health, 165);
    player.heal_player(-200);
    assert_eq!(player.health, 0);
}

#[test]
fn invincibility_wards_off_damage_and_shots() {
    let mut player = pilot(1, PlaneType::SukaBlyat, "A");
    player.apply_powerup(PowerUpKind::Invincibility);
    assert!(player.invincibility_is_on());
    assert!(!player.damage_player(500));
    assert_eq!(player.health, 165);
    let (projectile, charging) = player.shoot();
    assert!(projectile.is_none());
    assert!(!charging);
    assert_eq!(player.cooldown, 0);
}

#[test]
fn second_weapon_replaces_the_first() {
    let mut player = pilot(1, PlaneType::SukaBlyat, "A");
    assert_eq!(kinds(&player), vec![PowerUpKind::Gun]);
    player.apply_powerup(PowerUpKind::Laser);
    assert_eq!(kinds(&player), vec![PowerUpKind::Laser]);
    player.apply_powerup(PowerUpKind::Afterburner);
    assert_eq!(kinds(&player), vec![PowerUpKind::Laser, PowerUpKind::Afterburner]);
    player.apply_powerup(PowerUpKind::Missile);
    assert_eq!(kinds(&player), vec![PowerUpKind::Afterburner, PowerUpKind::Missile]);
    player.apply_powerup(PowerUpKind::Missile);
    assert_eq!(kinds(&player), vec![PowerUpKind::Afterburner, PowerUpKind::Missile]);
    player.apply_powerup(PowerUpKind::Gun);
    assert_eq!(kinds(&player), vec![PowerUpKind::Afterburner, PowerUpKind::Gun]);
    let weapons = player.powerups.iter().filter(|p| p.kind.is_weapon()).count();
    assert_eq!(weapons, 1);
}

#[test]
fn same_kind_is_applied_afresh() {
    let mut player = pilot(1, PlaneType::SukaBlyat, "A");
    player.apply_powerup(PowerUpKind::Invisible);
    player.manage_powerups(DELTA_TIME);
    assert_eq!(player.powerups[1].duration_left, Some(6_990_000));
    player.apply_powerup(PowerUpKind::Invisible);
    assert_eq!(kinds(&player), vec![PowerUpKind::Gun, PowerUpKind::Invisible]);
    assert_eq!(player.powerups[1].duration_left, Some(7_000_000));
    assert!(player.is_invisible());
}

#[test]
fn health_powerup_heals_at_once_and_is_not_stored() {
    let mut player = pilot(1, PlaneType::SukaBlyat, "A");
    player.health = 100;
    player.apply_powerup(PowerUpKind::Health);
    assert_eq!(player.health, 140);
    assert_eq!(kinds(&player), vec![PowerUpKind::Gun]);
    player.add_powerup(PowerUpKind::Health);
    assert_eq!(player.health, 165);
    assert_eq!(player.available_powerup, None);
}

#[test]
fn triggerable_powerup_waits_for_the_trigger() {
    let mut player = pilot(1, PlaneType::SukaBlyat, "A");
    player.add_powerup(PowerUpKind::SlowTime);
    assert_eq!(player.available_powerup, Some(PowerUpKind::SlowTime));
    assert_eq!(kinds(&player), vec![PowerUpKind::Gun]);
    player.add_powerup(PowerUpKind::Afterburner);
    assert_eq!(player.available_powerup, Some(PowerUpKind::Afterburner));
    player.trigger_powerup_if_available();
    assert_eq!(player.available_powerup, None);
    assert_eq!(kinds(&player), vec![PowerUpKind::Gun, PowerUpKind::Afterburner]);
    assert_eq!(player.powerups[1].duration_left, Some(5_000_000));
    player.trigger_powerup_if_available();
    assert_eq!(kinds(&player), vec![PowerUpKind::Gun, PowerUpKind::Afterburner]);
    player.add_powerup(PowerUpKind::Laser);
    assert_eq!(player.available_powerup, None);
    assert_eq!(kinds(&player), vec![PowerUpKind::Afterburner, PowerUpKind::Laser]);
}

#[test]
fn timed_powerup_is_dropped_when_its_time_is_up() {
    let mut player = pilot(1, PlaneType::SukaBlyat, "A");
    player.apply_powerup(PowerUpKind::Afterburner);
    for tick in 1..500 {
        player.manage_powerups(DELTA_TIME);
        assert_eq!(
            player.powerups[1].duration_left,
            Some(5_000_000 - tick * DELTA_TIME as i64)
        );
    }
    player.manage_powerups(DELTA_TIME);
    assert_eq!(kinds(&player), vec![PowerUpKind::Gun]);
    assert_eq!(player.powerups[0].duration_left, None);
}

#[test]
fn update_flies_along_the_nose() {
    let mut player = pilot(1, PlaneType::SukaBlyat, "A");
    player.update(0, 1_000, &None, DELTA_TIME);
    assert_eq!(player.position, vec2(1_000_000, 999_475));
    assert_eq!(player.speed, 52_200);
    assert_eq!(player.rotation, 0);
    assert_eq!(player.angular_velocity, 0);
    assert_eq!(player.wind_effect_velocity, vec2(0, 0));
}

#[test]
fn update_turns_with_the_steering_input() {
    let mut player = pilot(1, PlaneType::SukaBlyat, "A");
    player.update(1_000, 0, &None, DELTA_TIME);
    assert_eq!(player.angular_velocity, 450);
    assert_eq!(player.rotation, 4);
    assert_eq!(player.speed, 50_000);
    let mut other = pilot(2, PlaneType::SukaBlyat, "B");
    other.update(-1_000, 0, &None, DELTA_TIME);
    assert_eq!(other.angular_velocity, -450);
    assert_eq!(other.rotation, 6_280);
}

#[test]
fn update_holds_inputs_and_speed_to_their_limits() {
    let mut wild = pilot(1, PlaneType::HowdyCowboy, "A");
    let mut tame = pilot(2, PlaneType::HowdyCowboy, "B");
    for _ in 0..300 {
        wild.update(i64::MAX, i64::MIN, &None, DELTA_TIME);
        tame.update(1_000, -1_000, &None, DELTA_TIME);
        assert_eq!(wild.speed, tame.speed);
        assert_eq!(wild.angular_velocity, tame.angular_velocity);
        assert_eq!(wild.rotation, tame.rotation);
        assert_eq!(wild.position, tame.position);
    }
    assert_eq!(wild.speed, 50_000);
    let mut fast = pilot(3, PlaneType::HowdyCowboy, "C");
    for _ in 0..200 {
        fast.update(0, 1_000, &None, DELTA_TIME);
        assert!(fast.speed <= 320_000);
    }
    assert_eq!(fast.speed, 320_000);
}

#[test]
fn final_velocity_holds_speed_and_boosts_under_afterburner() {
    let mut player = pilot(1, PlaneType::SukaBlyat, "A");
    assert_eq!(player.final_velocity(), vec2(0, -52_500));
    assert_eq!(player.speed, 50_000);
    player.apply_powerup(PowerUpKind::Afterburner);
    assert_eq!(player.final_velocity(), vec2(0, -78_750));
    player.speed = 1_000_000;
    player.rotation = QUARTER_TURN;
    assert_eq!(player.final_velocity(), vec2(567_000, 0));
    assert_eq!(player.speed, 360_000);
}

#[test]
fn gun_fires_a_bullet_ahead_of_the_nose() {
    let mut player = pilot(1, PlaneType::SukaBlyat, "A");
    let (projectile, charging) = player.shoot_with_id(77);
    assert!(!charging);
    assert_eq!(player.cooldown, PLAYER_COOLDOWN);
    assert_eq!(player.speed, 50_000);
    match projectile {
        Some(ProjectileKind::Bullet(bullet)) => {
            assert_eq!(bullet.id, 77);
            assert_eq!(bullet.position, vec2(1_000_000, 970_000));
            assert_eq!(bullet.velocity, vec2(0, -652_500));
            assert_eq!(bullet.damage, 50);
            assert_eq!(bullet.owner, 1);
            assert_eq!(bullet.owner_name, "A");
            assert_eq!(bullet.lifetime, 0);
            assert_eq!(bullet.traveled_distance, 0);
        }
        _ => panic!("a bullet was expected"),
    }
    let (again, _) = player.shoot_with_id(78);
    assert!(again.is_none());
    for _ in 0..19 {
        player.update(0, 0, &None, DELTA_TIME);
        assert!(player.shoot_with_id(79).0.is_none());
    }
    player.update(0, 0, &None, DELTA_TIME);
    assert!(player.shoot_with_id(80).0.is_some());
}

#[test]
fn shoot_draws_an_id_below_the_largest() {
    let mut player = pilot(1, PlaneType::SukaBlyat, "A");
    let (projectile, _) = player.shoot();
    match projectile {
        Some(ProjectileKind::Bullet(bullet)) => assert!(bullet.id < u64::MAX),
        _ => panic!("a bullet was expected"),
    }
}

#[test]
fn missile_launcher_launches_a_missile() {
    let mut player = pilot(4, PlaneType::AchtungBlitzKrieg, "D");
    player.apply_powerup(PowerUpKind::Missile);
    player.rotation = QUARTER_TURN;
    let (projectile, charging) = player.shoot_with_id(5);
    assert!(!charging);
    assert_eq!(player.cooldown, PLAYER_COOLDOWN);
    match projectile {
        Some(ProjectileKind::Missile(missile)) => {
            assert_eq!(missile.id, 5);
            assert_eq!(missile.position, vec2(1_030_000, 1_000_000));
            assert_eq!(missile.angle, 0);
            assert_eq!(missile.angular_velocity, 0);
            assert_eq!(missile.damage, 40);
            assert_eq!(missile.owner, 4);
            assert_eq!(missile.owner_name, "D");
            assert_eq!(missile.speed, 0);
        }
        _ => panic!("a missile was expected"),
    }
}

#[test]
fn laser_charges_then_fires() {
    let mut player = pilot(1, PlaneType::SukaBlyat, "A");
    player.apply_powerup(PowerUpKind::Laser);
    assert_eq!(player.laser_charge_progress(), None);
    let (projectile, charging) = player.shoot();
    assert!(projectile.is_none());
    assert!(charging);
    assert_eq!(player.laser_charge_time, Some(LASER_FIRE_TIME));
    assert_eq!(player.laser_charge_progress(), Some(0));
    let (projectile, charging) = player.shoot();
    assert!(projectile.is_none());
    assert!(!charging);
    for tick in 1..=80 {
        player.update(0, 0, &None, DELTA_TIME);
        assert!(!player.lasering_this_frame);
        assert_eq!(player.laser_charge_time, Some(LASER_FIRE_TIME - tick * DELTA_TIME as i64));
        assert!(player.maybe_get_laser().is_none());
    }
    assert_eq!(player.laser_charge_progress(), Some(1_000));
    player.update(0, 0, &None, DELTA_TIME);
    assert!(player.lasering_this_frame);
    assert_eq!(player.laser_charge_time, None);
    let beam = player.maybe_get_laser().expect("a beam was expected");
    assert_eq!(beam.position, player.position);
    assert_eq!(beam.angle, player.rotation);
    assert_eq!(beam.damage, LASER_DAMAGE);
    assert_eq!(beam.owner, 1);
    assert_eq!(beam.owner_name, "A");
    assert_eq!(beam.lifetime, 20_000);
    player.update(0, 0, &None, DELTA_TIME);
    assert!(!player.lasering_this_frame);
}

#[test]
fn shooting_without_a_laser_drops_a_charge() {
    let mut player = pilot(1, PlaneType::SukaBlyat, "A");
    player.laser_charge_time = Some(400_000);
    assert_eq!(player.laser_charge_progress(), Some(500));
    player.cooldown = 1;
    let (projectile, charging) = player.shoot();
    assert!(projectile.is_none());
    assert!(!charging);
    assert_eq!(player.laser_charge_time, None);
}

#[test]
fn collision_timer_runs_down_to_zero() {
    let mut player = pilot(1, PlaneType::SukaBlyat, "A");
    player.update_collision_timer(u16::MAX);
    assert_eq!(player.time_to_next_collision, COLLISION_GRACE_PERIOD - 65_535);
    for _ in 0..20 {
        player.update_collision_timer(u16::MAX);
    }
    assert_eq!(player.time_to_next_collision, 0);
}
