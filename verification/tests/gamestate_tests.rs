use libplen::constants::{
    COLLISION_GRACE_PERIOD, DELTA_TIME, POWERUP_AMOUNT, QUARTER_TURN, WORLD_SIZE,
};
use libplen::gamestate::GameState;
use libplen::hurricane::{Hurricane, HurricaneStatus};
use libplen::math::{vec2, Vec2};
use libplen::player::{Color, PlaneType, Player};
use libplen::powerups::{PowerUp, PowerUpKind};
use libplen::projectiles::{Bullet, LaserBeam, Missile, ProjectileKind};

fn pilot(id: u64, x: i64, y: i64, plane: PlaneType, name: &str) -> Player {
    Player::new(id, vec2(x, y), plane, Color::Red, name.to_string())
}

fn texts(state: &GameState) -> Vec<String> {
    state.killfeed.messages.iter().map(|m| m.message.clone()).collect()
}

fn in_world(position: Vec2) -> bool {
    0 <= position.x && position.x < WORLD_SIZE && 0 <= position.y && position.y < WORLD_SIZE
}

#[test]
fn new_world_is_empty() {
    let state = GameState::new();
    assert!(state.players.is_empty());
    assert!(state.projectiles.is_empty());
    assert!(state.powerups.is_empty());
    assert!(state.lasers.is_empty());
    assert!(state.killfeed.messages.is_empty());
    assert!(state.hurricane.is_none());
}

#[test]
fn add_player_announces_the_player() {
    let mut state = GameState::new();
    state.add_player(pilot(1, 0, 0, PlaneType::SukaBlyat, "Anna"));
    state.add_player(pilot(2, 5, 5, PlaneType::HowdyCowboy, "Bob"));
    assert_eq!(state.players.len(), 2);
    assert_eq!(state.players[1].name, "Bob");
    assert_eq!(
        texts(&state),
        vec!["Anna has joined the game.".to_string(), "Bob has joined the game.".to_string()]
    );
}

#[test]
fn get_player_by_id_finds_the_first_with_the_id() {
    let mut state = GameState::new();
    state.add_player(pilot(1, 0, 0, PlaneType::SukaBlyat, "Anna"));
    state.add_player(pilot(2, 5, 5, PlaneType::HowdyCowboy, "Bob"));
    state.add_player(pilot(2, 9, 9, PlaneType::HowdyCowboy, "Bert"));
    assert_eq!(state.get_player_by_id(2).map(|p| p.name.clone()), Some("Bob".to_string()));
    assert_eq!(state.player_index(2), Some(1));
    assert_eq!(state.player_index(1), Some(0));
    assert!(state.get_player_by_id(3).is_none());
    assert_eq!(state.player_index(3), None);
}

#[test]
fn add_bullet_appends_the_projectile() {
    let mut state = GameState::new();
    state.add_bullet(ProjectileKind::Missile(Missile::with_id(
        3,
        vec2(1, 1),
        0,
        40,
        1,
        0,
        "A".to_string(),
    )));
    assert_eq!(state.projectiles.len(), 1);
    assert_eq!(state.projectiles[0].get_id(), 3);
}

#[test]
fn update_hurricane_moves_it_and_removes_it_when_dead() {
    let mut state = GameState::new();
    state.update_hurricane(DELTA_TIME);
    assert!(state.hurricane.is_none());
    let mut hurricane = Hurricane::new(vec2(0, 0), vec2(0, 0));
    hurricane.size = 1_000;
    hurricane.status = HurricaneStatus::Shrinking;
    state.hurricane = Some(hurricane);
    state.update_hurricane(1_000);
    assert_eq!(state.hurricane.map(|h| h.size), Some(900));
    state.update_hurricane(DELTA_TIME);
    assert!(state.hurricane.is_none());
}

#[test]
fn hurricane_spawns_on_a_low_draw_into_an_empty_sky() {
    let mut state = GameState::new();
    state.spawn_hurricane_on(50_000, vec2(7, 8), vec2(1, 2), DELTA_TIME);
    assert!(state.hurricane.is_none());
    state.spawn_hurricane_on(49_999, vec2(7, 8), vec2(1, 2), DELTA_TIME);
    assert_eq!(state.hurricane, Some(Hurricane::new(vec2(7, 8), vec2(1, 2))));
    state.spawn_hurricane_on(0, vec2(70, 80), vec2(10, 20), DELTA_TIME);
    assert_eq!(state.hurricane, Some(Hurricane::new(vec2(7, 8), vec2(1, 2))));
    let mut slow = GameState::new();
    slow.spawn_hurricane_on(16_665, vec2(7, 8), vec2(1, 2), 3_333);
    assert!(slow.hurricane.is_none());
    slow.spawn_hurricane_on(16_664, vec2(7, 8), vec2(1, 2), 3_333);
    assert!(slow.hurricane.is_some());
}

#[test]
fn maybe_spawn_hurricane_keeps_the_world_valid() {
    let mut state = GameState::new();
    for _ in 0..200 {
        state.maybe_spawn_hurricane(u16::MAX);
    }
    if let Some(hurricane) = state.hurricane {
        assert!(in_world(hurricane.position));
        assert!(0 <= hurricane.velocity.x && hurricane.velocity.x < 30_000);
        assert!(0 <= hurricane.velocity.y && hurricane.velocity.y < 30_000);
        assert_eq!(hurricane.size, 0);
        assert_eq!(hurricane.status, HurricaneStatus::Growing);
    }
}

#[test]
fn powerups_are_refilled_to_the_configured_amount() {
    let mut state = GameState::new();
    let pickups = state.handle_powerups();
    assert!(pickups.is_empty());
    assert_eq!(state.powerups.len(), POWERUP_AMOUNT);
    for powerup in state.powerups.iter() {
        assert!(in_world(powerup.position));
    }
    let laid = state.powerups.clone();
    state.handle_powerups();
    assert_eq!(state.powerups, laid);
}

#[test]
fn powerups_above_the_amount_are_left_alone() {
    let mut state = GameState::new();
    for i in 0..15 {
        state.powerups.push(PowerUp::new(PowerUpKind::Health, vec2(i, i)));
    }
    let before = state.powerups.clone();
    state.handle_powerups();
    assert_eq!(state.powerups, before);
}

#[test]
fn players_pick_up_the_powerups_within_reach() {
    let mut state = GameState::new();
    state.add_player(pilot(1, 100_000, 100_000, PlaneType::SukaBlyat, "Anna"));
    state.add_player(pilot(2, 150_000, 100_000, PlaneType::HowdyCowboy, "Bob"));
    state.players[0].health = 100;
    state.powerups.push(PowerUp::new(PowerUpKind::Laser, vec2(139_999, 100_000)));
    state.powerups.push(PowerUp::new(PowerUpKind::Gun, vec2(140_000, 100_000)));
    state.powerups.push(PowerUp::new(PowerUpKind::Health, vec2(100_000, 2_990_000 + 110_000)));
    state.powerups.push(PowerUp::new(PowerUpKind::SlowTime, vec2(160_000, 110_000)));
    state.powerups.push(PowerUp::new(PowerUpKind::Invisible, vec2(2_000_000, 2_000_000)));
    state.powerups[2].position = vec2(100_000, 70_000);
    let pickups = state.handle_powerups();
    assert_eq!(
        pickups,
        vec![
            (1, vec2(100_000, 100_000)),
            (1, vec2(100_000, 100_000)),
            (2, vec2(150_000, 100_000)),
            (2, vec2(150_000, 100_000)),
        ]
    );
    let first: Vec<PowerUpKind> = state.players[0].powerups.iter().map(|p| p.kind).collect();
    assert_eq!(first, vec![PowerUpKind::Laser]);
    assert_eq!(state.players[0].health, 140);
    let second: Vec<PowerUpKind> = state.players[1].powerups.iter().map(|p| p.kind).collect();
    assert_eq!(second, vec![PowerUpKind::Gun]);
    assert_eq!(state.players[1].available_powerup, Some(PowerUpKind::SlowTime));
    assert_eq!(state.powerups.len(), POWERUP_AMOUNT);
    assert_eq!(state.powerups[0], PowerUp::new(PowerUpKind::Invisible, vec2(2_000_000, 2_000_000)));
}

#[test]
fn powerup_is_picked_up_across_the_edge() {
    let mut state = GameState::new();
    state.add_player(pilot(1, 10, 10, PlaneType::SukaBlyat, "Anna"));
    state.powerups.push(PowerUp::new(PowerUpKind::Missile, vec2(WORLD_SIZE - 10, WORLD_SIZE - 10)));
    let pickups = state.handle_powerups();
    assert_eq!(pickups, vec![(1, vec2(10, 10))]);
    assert_eq!(state.players[0].powerups[0].kind, PowerUpKind::Missile);
}

#[test]
fn bullet_hits_the_player_on_its_path_once_it_is_armed() {
    let mut state = GameState::new();
    let mut shooter = pilot(1, 0, 0, PlaneType::SukaBlyat, "Anna");
    shooter.rotation = QUARTER_TURN;
    let (projectile, _) = shooter.shoot_with_id(99);
    state.add_player(shooter);
    state.add_player(pilot(2, 56_100, 0, PlaneType::HowdyCowboy, "Bob"));
    state.add_bullet(projectile.expect("a bullet was expected"));
    match &state.projectiles[0] {
        ProjectileKind::Bullet(bullet) => {
            assert_eq!(bullet.position, vec2(30_000, 0));
            assert_eq!(bullet.velocity, vec2(652_500, 0));
        }
        _ => panic!("a bullet was expected"),
    }
    for tick in 1..=3 {
        let hits = state.handle_bullets(DELTA_TIME);
        assert!(hits.is_empty(), "tick {}", tick);
        assert_eq!(state.projectiles.len(), 1);
        assert_eq!(state.players[1].health, 195);
        assert_eq!(state.projectiles[0].get_position(), vec2(30_000 + tick * 6_525, 0));
    }
    let hits = state.handle_bullets(DELTA_TIME);
    assert_eq!(hits, vec![2]);
    assert!(state.projectiles.is_empty());
    assert_eq!(state.players[1].health, 195 - 15);
    assert_eq!(state.players[0].health, 165);
    assert_eq!(texts(&state).len(), 2);
}

#[test]
fn bullet_that_kills_is_announced() {
    let mut state = GameState::new();
    state.add_player(pilot(1, 0, 0, PlaneType::SukaBlyat, "Anna"));
    state.add_player(pilot(2, 500_000, 500_000, PlaneType::HowdyCowboy, "Bob"));
    state.players[1].health = 15;
    let mut bullet =
        Bullet::with_id(5, vec2(500_000, 480_000), vec2(0, 0), 50, 1, "Anna".to_string());
    bullet.lifetime = 30_000;
    state.add_bullet(ProjectileKind::Bullet(bullet));
    let hits = state.handle_bullets(DELTA_TIME);
    assert!(hits.is_empty());
    state.projectiles[0] = ProjectileKind::Bullet(Bullet {
        id: 5,
        position: vec2(500_000, 480_001),
        velocity: vec2(0, 0),
        traveled_distance: 0,
        damage: 50,
        lifetime: 30_000,
        owner: 1,
        owner_name: "Anna".to_string(),
    });
    let hits = state.handle_bullets(DELTA_TIME);
    assert_eq!(hits, vec![2]);
    assert_eq!(state.players[1].health, 0);
    assert!(state.projectiles.is_empty());
    assert_eq!(texts(&state)[2], "Anna killed Bob using a Gun.");
}

#[test]
fn own_bullet_that_kills_is_announced_as_such() {
    let mut state = GameState::new();
    state.add_player(pilot(1, 500_000, 500_000, PlaneType::SukaBlyat, "Anna"));
    state.players[0].health = 1;
    let mut bullet =
        Bullet::with_id(5, vec2(500_000, 500_000), vec2(0, 0), 50, 1, "Anna".to_string());
    bullet.lifetime = 40_000;
    state.add_bullet(ProjectileKind::Bullet(bullet));
    let hits = state.handle_bullets(DELTA_TIME);
    assert_eq!(hits, vec![1]);
    assert_eq!(texts(&state)[1], "Anna killed themselves using a Gun.");
}

#[test]
fn spent_projectiles_are_dropped_and_one_bullet_can_hit_two() {
    let mut state = GameState::new();
    state.add_player(pilot(1, 500_000, 500_000, PlaneType::SukaBlyat, "Anna"));
    state.add_player(pilot(2, 510_000, 500_000, PlaneType::HowdyCowboy, "Bob"));
    state.add_player(pilot(3, 900_000, 900_000, PlaneType::HowdyCowboy, "Chris"));
    let mut spent = Bullet::with_id(4, vec2(505_000, 500_000), vec2(0, 0), 50, 9, "Z".to_string());
    spent.lifetime = 40_000;
    spent.traveled_distance = 900_001;
    let mut live = Bullet::with_id(5, vec2(505_000, 500_000), vec2(0, 0), 30, 9, "Z".to_string());
    live.lifetime = 40_000;
    let mut far = Bullet::with_id(6, vec2(1_505_000, 500_000), vec2(0, 0), 30, 9, "Z".to_string());
    far.lifetime = 40_000;
    let mut old = Missile::with_id(7, vec2(900_000, 900_000), 0, 40, 9, 0, "Z".to_string());
    old.lifetime = 3_000_000;
    state.add_bullet(ProjectileKind::Bullet(spent));
    state.add_bullet(ProjectileKind::Bullet(live));
    state.add_bullet(ProjectileKind::Bullet(far));
    state.add_bullet(ProjectileKind::Missile(old));
    let hits = state.handle_bullets(DELTA_TIME);
    assert_eq!(hits, vec![1, 2]);
    assert_eq!(state.players[0].health, 162);
    assert_eq!(state.players[1].health, 186);
    assert_eq!(state.players[2].health, 195);
    assert_eq!(state.projectiles.len(), 1);
    assert_eq!(state.projectiles[0].get_id(), 6);
}

#[test]
fn missile_hits_whenever_it_is_near() {
    let mut state = GameState::new();
    state.add_player(pilot(3, 900_000, 900_000, PlaneType::HowdyCowboy, "Chris"));
    let fresh = Missile::with_id(7, vec2(900_000, 900_000), 0, 40, 9, 0, "Zed".to_string());
    state.add_bullet(ProjectileKind::Missile(fresh));
    let hits = state.handle_bullets(DELTA_TIME);
    assert_eq!(hits, vec![3]);
    assert_eq!(state.players[0].health, 183);
    assert!(state.projectiles.is_empty());
}

#[test]
fn charged_laser_fires_and_burns_the_players_on_the_beam() {
    let mut state = GameState::new();
    state.add_player(pilot(1, 1_000_000, 1_000_000, PlaneType::SukaBlyat, "Anna"));
    state.add_player(pilot(2, 1_000_000, 800_000, PlaneType::HowdyCowboy, "Bob"));
    state.add_player(pilot(3, 1_000_000, 1_100_000, PlaneType::HowdyCowboy, "Chris"));
    state.players[0].lasering_this_frame = true;
    let fired = state.handle_lasers(DELTA_TIME);
    assert_eq!(fired, vec![vec2(1_000_000, 1_000_000)]);
    assert_eq!(state.lasers.len(), 1);
    assert_eq!(state.lasers[0].lifetime, 10_000);
    assert_eq!(state.lasers[0].owner, 1);
    assert_eq!(state.players[0].health, 165);
    assert_eq!(state.players[1].health, 45);
    assert_eq!(state.players[2].health, 195);
    state.players[0].lasering_this_frame = false;
    let fired = state.handle_lasers(DELTA_TIME);
    assert!(fired.is_empty());
    assert_eq!(state.lasers[0].lifetime, 0);
    assert_eq!(state.players[1].health, 45);
    for _ in 0..31 {
        state.handle_lasers(DELTA_TIME);
        assert_eq!(state.lasers.len(), 1);
    }
    assert_eq!(state.lasers[0].lifetime, -310_000);
    state.handle_lasers(DELTA_TIME);
    assert!(state.lasers.is_empty());
    assert_eq!(state.players[1].health, 45);
}

#[test]
fn laser_that_kills_is_announced() {
    let mut state = GameState::new();
    state.add_player(pilot(2, 1_000_000, 800_000, PlaneType::SukaBlyat, "Bob"));
    state.players[0].health = 50;
    state.lasers.push(LaserBeam::new(vec2(1_000_000, 1_000_000), 0, 500, 1, "Anna".to_string()));
    state.lasers.push(LaserBeam::new(vec2(1_000_000, 900_000), 0, 500, 2, "Bob".to_string()));
    state.handle_lasers(DELTA_TIME);
    assert_eq!(state.players[0].health, 0);
    assert_eq!(texts(&state), vec!["Bob has joined the game.", "Anna killed Bob using a Laser."]);
}

#[test]
fn colliding_players_take_damage_once_their_grace_is_over() {
    let mut state = GameState::new();
    state.add_player(pilot(1, 500_000, 500_000, PlaneType::SukaBlyat, "Anna"));
    state.add_player(pilot(2, 539_999, 500_000, PlaneType::HowdyCowboy, "Bob"));
    state.add_player(pilot(3, 580_000, 500_000, PlaneType::HowdyCowboy, "Chris"));
    for _ in 0..99 {
        let hits = state.handle_player_collisions(DELTA_TIME);
        assert!(hits.is_empty());
    }
    assert_eq!(state.players[0].time_to_next_collision, 10_000);
    let hits = state.handle_player_collisions(DELTA_TIME);
    assert_eq!(hits, vec![1, 2]);
    assert_eq!(state.players[0].health, 161);
    assert_eq!(state.players[1].health, 183);
    assert_eq!(state.players[2].health, 195);
    assert_eq!(state.players[0].time_to_next_collision, COLLISION_GRACE_PERIOD);
    assert_eq!(state.players[1].time_to_next_collision, COLLISION_GRACE_PERIOD);
    assert_eq!(state.players[2].time_to_next_collision, 0);
    let hits = state.handle_player_collisions(DELTA_TIME);
    assert!(hits.is_empty());
    assert_eq!(state.players[0].health, 161);
}

#[test]
fn collision_that_kills_is_blamed_on_the_first_collider() {
    let mut state = GameState::new();
    state.add_player(pilot(1, 500_000, 500_000, PlaneType::SukaBlyat, "Anna"));
    state.add_player(pilot(2, 510_000, 500_000, PlaneType::HowdyCowboy, "Bob"));
    state.add_player(pilot(3, 505_000, 500_000, PlaneType::HowdyCowboy, "Chris"));
    state.players[2].health = 12;
    state.players[2].time_to_next_collision = 5;
    state.players[0].apply_powerup(PowerUpKind::Invincibility);
    state.players[0].time_to_next_collision = 0;
    let hits = state.handle_player_collisions(DELTA_TIME);
    assert_eq!(hits, vec![3]);
    assert_eq!(state.players[2].health, 0);
    assert_eq!(state.players[0].health, 165);
    assert_eq!(state.players[0].time_to_next_collision, COLLISION_GRACE_PERIOD);
    assert_eq!(texts(&state)[3], "Anna killed Chris by collision.");
}

#[test]
fn players_with_the_same_id_do_not_collide() {
    let mut state = GameState::new();
    state.add_player(pilot(1, 500_000, 500_000, PlaneType::SukaBlyat, "Anna"));
    state.add_player(pilot(1, 500_000, 500_000, PlaneType::SukaBlyat, "Anna"));
    state.players[0].time_to_next_collision = 0;
    state.players[1].time_to_next_collision = 0;
    assert!(state.handle_player_collisions(DELTA_TIME).is_empty());
}

#[test]
fn update_runs_a_whole_tick() {
    let mut state = GameState::new();
    state.add_player(pilot(1, 500_000, 500_000, PlaneType::SukaBlyat, "Anna"));
    state.add_player(pilot(2, 535_000, 500_000, PlaneType::HowdyCowboy, "Bob"));
    state.players[0].time_to_next_collision = 0;
    state.players[0].lasering_this_frame = true;
    state.powerups.push(PowerUp::new(PowerUpKind::Missile, vec2(500_000, 500_000)));
    let mut bullet =
        Bullet::with_id(5, vec2(517_500, 500_000), vec2(0, 0), 50, 1, "Anna".to_string());
    bullet.lifetime = 40_000;
    state.add_bullet(ProjectileKind::Bullet(bullet));
    let (hits, pickups, lasers) = state.update(DELTA_TIME);
    assert_eq!(hits, vec![1, 2, 1]);
    assert_eq!(pickups, vec![(1, vec2(500_000, 500_000))]);
    assert_eq!(lasers, vec![vec2(500_000, 500_000)]);
    assert_eq!(state.players[0].powerups[0].kind, PowerUpKind::Missile);
    assert_eq!(state.players[0].health, 165 - 5 - 4);
    assert_eq!(state.players[1].health, 195 - 15);
    assert!(state.projectiles.is_empty());
    assert_eq!(state.lasers.len(), 1);
    assert_eq!(state.powerups.len(), POWERUP_AMOUNT);
    assert_eq!(state.killfeed.messages.len(), 2);
    assert_eq!(state.killfeed.messages[0].duration_left, Some(3_990_000));
    for _ in 0..500 {
        state.update(DELTA_TIME);
        assert!(state.powerups.len() >= POWERUP_AMOUNT);
        for player in state.players.iter() {
            assert!(0 <= player.health && player.health <= player.max_health());
            assert!(in_world(player.position));
        }
    }
    assert!(state.killfeed.messages.is_empty());
}
