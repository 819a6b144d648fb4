use libplen::constants::{DELTA_TIME, PLAYER_COOLDOWN, POWERUP_AMOUNT, WORLD_SIZE};
use libplen::math::vec2;
use libplen::messages::{ClientInput, ClientMessage, ServerMessage, SoundEffect};
use libplen::player::{Color, PlaneType};
use libplen::powerups::PowerUpKind;
use libplen::projectiles::{Bullet, ProjectileKind};
use libplen::server::{
    after_read, after_write, choose_name, classify, cut_to_length, into_message, messages_for,
    sanitize_name,
    sounds_after, ClientTick, FailureClass, IoFailure, Outgoing, ReadStep, Server, WriteStep,
};

#[test]
fn failures_are_sorted_into_classes() {
    assert_eq!(classify(IoFailure::WouldBlock), FailureClass::Transient);
    assert_eq!(classify(IoFailure::Interrupted), FailureClass::Transient);
    assert_eq!(classify(IoFailure::ConnectionReset), FailureClass::PeerClosed);
    assert_eq!(classify(IoFailure::BrokenPipe), FailureClass::PeerClosed);
    assert_eq!(classify(IoFailure::Other), FailureClass::Fatal);
}

#[test]
fn reads_go_on_until_nothing_is_left() {
    assert_eq!(after_read(Ok(64)), ReadStep::Take(64));
    assert_eq!(after_read(Ok(1)), ReadStep::Take(1));
    assert_eq!(after_read(Ok(0)), ReadStep::Done);
    assert_eq!(after_read(Err(IoFailure::WouldBlock)), ReadStep::Done);
    assert_eq!(after_read(Err(IoFailure::Interrupted)), ReadStep::Retry);
    assert_eq!(after_read(Err(IoFailure::ConnectionReset)), ReadStep::Disconnect);
    assert_eq!(after_read(Err(IoFailure::BrokenPipe)), ReadStep::Disconnect);
    assert_eq!(after_read(Err(IoFailure::Other)), ReadStep::Fatal);
}

#[test]
fn writes_go_on_until_all_is_written() {
    assert_eq!(after_write(Ok(3), 10), WriteStep::Advance(3));
    assert_eq!(after_write(Ok(0), 10), WriteStep::Advance(0));
    assert_eq!(after_write(Ok(10), 10), WriteStep::Done);
    assert_eq!(after_write(Ok(11), 10), WriteStep::Done);
    assert_eq!(after_write(Err(IoFailure::WouldBlock), 10), WriteStep::Retry);
    assert_eq!(after_write(Err(IoFailure::Interrupted), 10), WriteStep::Retry);
    assert_eq!(after_write(Err(IoFailure::ConnectionReset), 10), WriteStep::Disconnect);
    assert_eq!(after_write(Err(IoFailure::BrokenPipe), 10), WriteStep::Disconnect);
    assert_eq!(after_write(Err(IoFailure::Other), 10), WriteStep::Fatal);
}

#[test]
fn names_lose_the_white_space_around_them() {
    assert_eq!(sanitize_name("  bob  "), "bob");
    assert_eq!(sanitize_name("\t anna banana\n"), "anna banana");
    assert_eq!(sanitize_name("chris"), "chris");
}

#[test]
fn ascii_names_are_cut_to_twenty_columns() {
    assert_eq!(sanitize_name("abcdefghijklmnopqrstuvwxyz"), "abcdefghijklmnopqrst");
    assert_eq!(sanitize_name("abcdefghijklmnopqrst"), "abcdefghijklmnopqrst");
    assert_eq!(sanitize_name("   abcdefghijklmnopqrstu   "), "abcdefghijklmnopqrst");
    assert_eq!(cut_to_length("abcdefghijklmnopqrstu"), "abcdefghijklmnopqrst");
    assert_eq!(cut_to_length(""), "");
}

#[test]
fn other_names_are_cut_to_twenty_characters() {
    let wide: String = "\u{4f60}\u{597d}\u{5417}".repeat(4);
    assert_eq!(sanitize_name(&wide), wide);
    let long: String = "\u{4f60}\u{597d}\u{5417}".repeat(9);
    let start: String = long.chars().take(20).collect();
    assert_eq!(sanitize_name(&long), start);
    assert_eq!(sanitize_name("  \u{fc}ml\u{e4}ut  "), "\u{fc}ml\u{e4}ut");
    let joined = "\u{0644}\u{0627}\u{0644}\u{0627}";
    assert_eq!(sanitize_name(joined), joined);
}

#[test]
fn names_of_nothing_are_replaced() {
    assert_eq!(sanitize_name(""), "Mr Whitespace");
    assert_eq!(sanitize_name("   \t\n "), "Mr Whitespace");
    assert_eq!(choose_name("", "cut".to_string()), "Mr Whitespace");
    assert_eq!(choose_name("x", "cut".to_string()), "cut");
    assert_eq!(choose_name(" ", "".to_string()), "");
}

#[test]
fn ids_are_assigned_in_turn() {
    let mut server = Server::new();
    assert_eq!(server.assign_id(), Some(0));
    assert_eq!(server.assign_id(), Some(1));
    assert_eq!(server.next_id, 2);
    server.next_id = u64::MAX - 1;
    assert_eq!(server.assign_id(), Some(u64::MAX - 1));
    assert_eq!(server.assign_id(), None);
    assert_eq!(server.assign_id(), None);
    assert_eq!(server.next_id, u64::MAX);
}

#[test]
fn join_at_adds_a_player_under_the_sanitized_name() {
    let mut server = Server::new();
    server.join_at(4, "  Anna  ", PlaneType::ElPolloRomero, Color::Yellow, vec2(-1, 5));
    assert_eq!(server.state.players.len(), 1);
    let player = &server.state.players[0];
    assert_eq!(player.id, 4);
    assert_eq!(player.name, "Anna");
    assert_eq!(player.planetype, PlaneType::ElPolloRomero);
    assert_eq!(player.color, Color::Yellow);
    assert_eq!(player.position, vec2(WORLD_SIZE - 1, 5));
    assert_eq!(player.health, 180);
    assert_eq!(server.state.killfeed.messages[0].message, "Anna has joined the game.");
}

#[test]
fn handle_message_takes_controls_and_joins() {
    let mut server = Server::new();
    let mut input = ClientInput::new();
    let controls =
        ClientInput { x_input: -1_000, y_input: 500, shooting: true, activating_powerup: false };
    assert!(server.handle_message(3, Some(ClientMessage::Input(controls)), &mut input));
    assert_eq!(input, controls);
    assert!(server.state.players.is_empty());
    let join = ClientMessage::JoinGame {
        name: "   ".to_string(),
        plane: PlaneType::HowdyCowboy,
        color: Color::Purple,
    };
    assert!(server.handle_message(3, Some(join), &mut input));
    assert_eq!(input, controls);
    assert_eq!(server.state.players.len(), 1);
    let player = &server.state.players[0];
    assert_eq!(player.id, 3);
    assert_eq!(player.name, "Mr Whitespace");
    assert_eq!(player.planetype, PlaneType::HowdyCowboy);
    assert!(0 <= player.position.x && player.position.x < WORLD_SIZE);
    assert!(0 <= player.position.y && player.position.y < WORLD_SIZE);
    assert!(!server.handle_message(3, None, &mut input));
    assert_eq!(input, controls);
    assert_eq!(server.state.players.len(), 1);
}

#[test]
fn slow_time_divides_the_tick() {
    let mut server = Server::new();
    assert!(!server.slowtime_is_active());
    assert_eq!(server.get_delta_time(), DELTA_TIME);
    server.join_at(1, "Anna", PlaneType::SukaBlyat, Color::Red, vec2(0, 0));
    server.join_at(2, "Bob", PlaneType::SukaBlyat, Color::Red, vec2(1_000_000, 0));
    server.state.players[1].add_powerup(PowerUpKind::SlowTime);
    assert!(!server.slowtime_is_active());
    server.state.players[1].trigger_powerup_if_available();
    assert!(server.slowtime_is_active());
    assert_eq!(server.get_delta_time(), 3_333);
}

#[test]
fn server_update_ticks_the_world_with_its_delta() {
    let mut server = Server::new();
    server.join_at(1, "Anna", PlaneType::SukaBlyat, Color::Red, vec2(0, 0));
    let (delta, hits, pickups, lasers) = server.update();
    assert_eq!(delta, DELTA_TIME);
    assert!(hits.is_empty());
    assert!(pickups.is_empty());
    assert!(lasers.is_empty());
    assert_eq!(server.state.powerups.len(), POWERUP_AMOUNT);
    assert_eq!(server.state.killfeed.messages[0].duration_left, Some(3_990_000));
    server.state.players[0].apply_powerup(PowerUpKind::SlowTime);
    let (delta, _, _, _) = server.update();
    assert_eq!(delta, 3_333);
    assert_eq!(server.state.killfeed.messages[0].duration_left, Some(3_986_667));
}

#[test]
fn update_client_flies_shoots_and_triggers() {
    let mut server = Server::new();
    server.join_at(1, "Anna", PlaneType::SukaBlyat, Color::Red, vec2(1_000_000, 1_000_000));
    server.state.players[0].add_powerup(PowerUpKind::Afterburner);
    let input =
        ClientInput { x_input: 0, y_input: 1_000, shooting: true, activating_powerup: true };
    let tick = server.update_client(1, &input, DELTA_TIME);
    let player = &server.state.players[0];
    assert_eq!(player.position, vec2(1_000_000, 999_475));
    assert_eq!(player.speed, 52_200);
    assert_eq!(player.cooldown, PLAYER_COOLDOWN);
    assert_eq!(player.available_powerup, None);
    assert_eq!(player.powerups[1].kind, PowerUpKind::Afterburner);
    assert_eq!(tick.laser_charge_at, None);
    assert_eq!(tick.died_at, None);
    match &tick.projectile {
        Some(ProjectileKind::Bullet(bullet)) => {
            assert_eq!(bullet.position, vec2(1_000_000, 969_475));
            assert_eq!(bullet.velocity, vec2(0, -654_810));
            assert_eq!(bullet.owner, 1);
        }
        _ => panic!("a bullet was expected"),
    }
    assert_eq!(sounds_after(&tick), vec![(SoundEffect::Gun, vec2(1_000_000, 969_475))]);
    assert!(server.state.projectiles.is_empty());
}

#[test]
fn update_client_reports_laser_charge_and_death() {
    let mut server = Server::new();
    server.join_at(1, "Anna", PlaneType::SukaBlyat, Color::Red, vec2(1_000_000, 1_000_000));
    server.state.players[0].apply_powerup(PowerUpKind::Laser);
    server.state.players[0].health = 0;
    let input = ClientInput { x_input: 0, y_input: 0, shooting: true, activating_powerup: false };
    let tick = server.update_client(1, &input, DELTA_TIME);
    assert!(tick.projectile.is_none());
    assert_eq!(tick.laser_charge_at, Some(vec2(1_000_000, 999_475)));
    assert_eq!(tick.died_at, Some(vec2(1_000_000, 999_475)));
    assert_eq!(
        sounds_after(&tick),
        vec![
            (SoundEffect::LaserCharge, vec2(1_000_000, 999_475)),
            (SoundEffect::Explosion, vec2(1_000_000, 999_475)),
        ]
    );
}

#[test]
fn update_client_without_a_player_does_nothing() {
    let mut server = Server::new();
    server.join_at(1, "Anna", PlaneType::SukaBlyat, Color::Red, vec2(1_000_000, 1_000_000));
    let input =
        ClientInput { x_input: 0, y_input: 1_000, shooting: true, activating_powerup: true };
    let tick = server.update_client(2, &input, DELTA_TIME);
    assert!(tick.projectile.is_none());
    assert_eq!(tick.laser_charge_at, None);
    assert_eq!(tick.died_at, None);
    assert!(sounds_after(&tick).is_empty());
    assert_eq!(server.state.players[0].position, vec2(1_000_000, 1_000_000));
    assert_eq!(server.state.players[0].cooldown, 0);
}

#[test]
fn messages_for_a_client_come_in_order() {
    let hits = vec![4, 2, 4];
    let pickups = vec![(2, vec2(1, 1)), (4, vec2(2, 2)), (2, vec2(3, 3))];
    assert_eq!(
        messages_for(2, &hits, true, &pickups),
        vec![
            Outgoing::PlayerHit(4),
            Outgoing::PlayerHit(2),
            Outgoing::PlayerHit(4),
            Outgoing::YouDied,
            Outgoing::Snapshot,
            Outgoing::PlaySound(SoundEffect::Powerup, vec2(1, 1)),
            Outgoing::PlaySound(SoundEffect::Powerup, vec2(3, 3)),
        ]
    );
    assert_eq!(messages_for(9, &vec![], false, &pickups), vec![Outgoing::Snapshot]);
}

#[test]
fn outgoing_turns_into_a_server_message() {
    let mut server = Server::new();
    server.join_at(1, "Anna", PlaneType::SukaBlyat, Color::Red, vec2(0, 0));
    assert!(matches!(
        into_message(Outgoing::PlayerHit(7), server.state.clone()),
        ServerMessage::PlayerHit(7)
    ));
    assert!(matches!(
        into_message(Outgoing::YouDied, server.state.clone()),
        ServerMessage::YouDied
    ));
    match into_message(Outgoing::PlaySound(SoundEffect::Gun, vec2(1, 2)), server.state.clone()) {
        ServerMessage::PlaySound(SoundEffect::Gun, position) => assert_eq!(position, vec2(1, 2)),
        _ => panic!("a sound was expected"),
    }
    match into_message(Outgoing::Snapshot, server.state.clone()) {
        ServerMessage::GameState(state) => {
            assert_eq!(state.players.len(), 1);
            assert_eq!(state.players[0].name, "Anna");
        }
        _ => panic!("a snapshot was expected"),
    }
}

#[test]
fn sounds_after_a_shot_name_the_place_of_the_projectile() {
    let tick = ClientTick {
        projectile: Some(ProjectileKind::Bullet(Bullet::with_id(
            1,
            vec2(7, 8),
            vec2(0, 0),
            10,
            1,
            "A".to_string(),
        ))),
        laser_charge_at: None,
        died_at: Some(vec2(1, 1)),
    };
    assert_eq!(
        sounds_after(&tick),
        vec![(SoundEffect::Explosion, vec2(1, 1)), (SoundEffect::Gun, vec2(7, 8))]
    );
}

#[test]
fn dead_and_disconnected_players_are_removed() {
    let mut server = Server::new();
    for id in 1..=6 {
        server.join_at(id, "P", PlaneType::SukaBlyat, Color::Red, vec2(0, 0));
    }
    server.state.players[1].health = 0;
    server.state.players[4].health = 0;
    server.remove_players(&vec![9, 4, 1, 4]);
    let ids: Vec<u64> = server.state.players.iter().map(|p| p.id).collect();
    assert_eq!(ids, vec![3, 6]);
    server.remove_players(&vec![]);
    assert_eq!(server.state.players.len(), 2);
    assert_eq!(server.state.killfeed.messages.len(), 6);
}
