//! Players and their planes.
use vstd::prelude::*;
use crate::arith::abs;
use crate::constants::{
    BULLET_DAMAGE,
    COLLISION_GRACE_PERIOD,
    DEFAULT_ACCELERATION,
    DEFAULT_AGILITY,
    DEFAULT_HEALTH,
    FULL_TURN,
    LASER_FIRE_TIME,
    MAX_SPEED,
    PLAYER_COOLDOWN,
};
use crate::math::{in_world, wrap_around, wrapped, Vec2};
use crate::powerups::{AppliedPowerup, PowerUpKind};
use self::effects::{powerups_alive, powerups_exclusive};
use self::flight::WIND_EFFECT_LIMIT;

pub mod effects;
pub mod flight;
pub mod health;
pub mod shooting;

verus! {

/// The types of plane; each has its own speed, agility, firepower, health and
/// resilience.
#[derive(Clone, Copy, Debug, PartialEq, Eq, Hash, Structural)]
pub enum PlaneType {
    SukaBlyat,
    HowdyCowboy,
    ElPolloRomero,
    AchtungBlitzKrieg,
}

impl PlaneType {
    /// The factor, in thousandths, between throttle speed and ground speed.
    pub open spec fn spec_speed(&self) -> i64 {
        match self {
            PlaneType::SukaBlyat => 1_050i64,
            PlaneType::HowdyCowboy => 1_000i64,
            PlaneType::ElPolloRomero => 1_100i64,
            PlaneType::AchtungBlitzKrieg => 1_000i64,
        }
    }

    /// The highest throttle speed.
    pub open spec fn spec_max_speed(&self) -> i64 {
        match self {
            PlaneType::SukaBlyat => 360_000i64,
            PlaneType::HowdyCowboy => 320_000i64,
            PlaneType::ElPolloRomero => 400_000i64,
            PlaneType::AchtungBlitzKrieg => 320_000i64,
        }
    }

    /// The highest angular velocity, in milliradians per second.
    pub open spec fn spec_agility(&self) -> i64 {
        match self {
            PlaneType::SukaBlyat => 500_000i64,
            PlaneType::HowdyCowboy => 400_000i64,
            PlaneType::ElPolloRomero => 500_000i64,
            PlaneType::AchtungBlitzKrieg => 400_000i64,
        }
    }

    /// The damage of one bullet: the base damage times the plane's factor.
    pub open spec fn spec_firepower(&self) -> i16 {
        match self {
            PlaneType::SukaBlyat => 50i16,
            PlaneType::HowdyCowboy => 30i16,
            PlaneType::ElPolloRomero => 30i16,
            PlaneType::AchtungBlitzKrieg => 40i16,
        }
    }

    /// The gain of throttle speed per second at full throttle.
    pub open spec fn spec_acceleration(&self) -> i64 {
        match self {
            PlaneType::SukaBlyat => 220_000i64,
            PlaneType::HowdyCowboy => 300_000i64,
            PlaneType::ElPolloRomero => 240_000i64,
            PlaneType::AchtungBlitzKrieg => 260_000i64,
        }
    }

    /// The health of an undamaged plane.
    pub open spec fn spec_health(&self) -> i16 {
        match self {
            PlaneType::SukaBlyat => 165i16,
            PlaneType::HowdyCowboy => 195i16,
            PlaneType::ElPolloRomero => 180i16,
            PlaneType::AchtungBlitzKrieg => 180i16,
        }
    }

    /// The part of each hit, in thousandths, that the plane shrugs off.
    pub open spec fn spec_resilience(&self) -> i64 {
        match self {
            PlaneType::SukaBlyat => 900i64,
            PlaneType::HowdyCowboy => 700i64,
            PlaneType::ElPolloRomero => 800i64,
            PlaneType::AchtungBlitzKrieg => 900i64,
        }
    }

    /// The factor, in thousandths, between throttle speed and ground speed.
    #[verifier::when_used_as_spec(spec_speed)]
    pub fn speed(&self) -> (r: i64)
        ensures
            r == self.spec_speed(),
    {
        match self {
            PlaneType::SukaBlyat => 1_050,
            PlaneType::HowdyCowboy => 1_000,
            PlaneType::ElPolloRomero => 1_100,
            PlaneType::AchtungBlitzKrieg => 1_000,
        }
    }

    /// The highest throttle speed.
    #[verifier::when_used_as_spec(spec_max_speed)]
    pub fn max_speed(&self) -> (r: i64)
        ensures
            r == self.spec_max_speed(),
    {
        match self {
            PlaneType::SukaBlyat => MAX_SPEED / 10 * 9,
            PlaneType::HowdyCowboy => MAX_SPEED / 10 * 8,
            PlaneType::ElPolloRomero => MAX_SPEED,
            PlaneType::AchtungBlitzKrieg => MAX_SPEED / 10 * 8,
        }
    }

    /// The highest angular velocity.
    #[verifier::when_used_as_spec(spec_agility)]
    pub fn agility(&self) -> (r: i64)
        ensures
            r == self.spec_agility(),
    {
        match self {
            PlaneType::SukaBlyat => DEFAULT_AGILITY * 5,
            PlaneType::HowdyCowboy => DEFAULT_AGILITY * 4,
            PlaneType::ElPolloRomero => DEFAULT_AGILITY * 5,
            PlaneType::AchtungBlitzKrieg => DEFAULT_AGILITY * 4,
        }
    }

    /// The damage of one bullet.
    #[verifier::when_used_as_spec(spec_firepower)]
    pub fn firepower(&self) -> (r: i16)
        ensures
            r == self.spec_firepower(),
    {
        match self {
            PlaneType::SukaBlyat => BULLET_DAMAGE * 5,
            PlaneType::HowdyCowboy => BULLET_DAMAGE * 3,
            PlaneType::ElPolloRomero => BULLET_DAMAGE * 3,
            PlaneType::AchtungBlitzKrieg => BULLET_DAMAGE * 4,
        }
    }

    /// The gain of throttle speed per second at full throttle.
    #[verifier::when_used_as_spec(spec_acceleration)]
    pub fn acceleration(&self) -> (r: i64)
        ensures
            r == self.spec_acceleration(),
    {
        match self {
            PlaneType::SukaBlyat => DEFAULT_ACCELERATION / 10 * 11,
            PlaneType::HowdyCowboy => DEFAULT_ACCELERATION / 10 * 15,
            PlaneType::ElPolloRomero => DEFAULT_ACCELERATION / 10 * 12,
            PlaneType::AchtungBlitzKrieg => DEFAULT_ACCELERATION / 10 * 13,
        }
    }

    /// The health of an undamaged plane.
    #[verifier::when_used_as_spec(spec_health)]
    pub fn health(&self) -> (r: i16)
        ensures
            r == self.spec_health(),
    {
        match self {
            PlaneType::SukaBlyat => DEFAULT_HEALTH / 10 * 11,
            PlaneType::HowdyCowboy => DEFAULT_HEALTH / 10 * 13,
            PlaneType::ElPolloRomero => DEFAULT_HEALTH / 10 * 12,
            PlaneType::AchtungBlitzKrieg => DEFAULT_HEALTH / 10 * 12,
        }
    }

    /// The part of each hit, in thousandths, that the plane shrugs off.
    #[verifier::when_used_as_spec(spec_resilience)]
    pub fn resilience(&self) -> (r: i64)
        ensures
            r == self.spec_resilience(),
    {
        match self {
            PlaneType::SukaBlyat => 900,
            PlaneType::HowdyCowboy => 700,
            PlaneType::ElPolloRomero => 800,
            PlaneType::AchtungBlitzKrieg => 900,
        }
    }

    /// The name of the plane as it is shown.
    pub fn name(&self) -> (r: &'static str)
        ensures
            r@ == match self {
                PlaneType::SukaBlyat => "Suka Blyat"@,
                PlaneType::HowdyCowboy => "Howdy Cowboy"@,
                PlaneType::ElPolloRomero => "El Pollo Romero"@,
                PlaneType::AchtungBlitzKrieg => "Achtung Blitzkrieg"@,
            },
    {
        match self {
            PlaneType::SukaBlyat => "Suka Blyat",
            PlaneType::HowdyCowboy => "Howdy Cowboy",
            PlaneType::ElPolloRomero => "El Pollo Romero",
            PlaneType::AchtungBlitzKrieg => "Achtung Blitzkrieg",
        }
    }
}

/// The colours that a player can choose for its plane.
#[derive(Clone, Copy, Debug, PartialEq, Eq, Hash, Structural)]
pub enum Color {
    Red,
    Green,
    Blue,
    Yellow,
    Purple,
}

impl Color {
    /// The colour's red, green, blue and opacity.
    pub fn rgba(&self) -> (r: (u8, u8, u8, u8))
        ensures
            r == match self {
                Color::Red => (255u8, 0u8, 0u8, 255u8),
                Color::Green => (0u8, 255u8, 0u8, 255u8),
                Color::Blue => (0u8, 0u8, 255u8, 255u8),
                Color::Yellow => (255u8, 255u8, 0u8, 255u8),
                Color::Purple => (255u8, 0u8, 255u8, 255u8),
            },
    {
        match self {
            Color::Red => (255, 0, 0, 255),
            Color::Green => (0, 255, 0, 255),
            Color::Blue => (0, 0, 255, 255),
            Color::Yellow => (255, 255, 0, 255),
            Color::Purple => (255, 0, 255, 255),
        }
    }
}

/// A player and the plane it flies.
#[derive(Clone, Debug)]
pub struct Player {
    pub id: u64,
    pub rotation: i64,
    pub angular_velocity: i64,
    pub wind_effect_velocity: Vec2,
    pub speed: i64,
    pub health: i16,
    pub position: Vec2,
    pub cooldown: i64,
    pub powerups: Vec<AppliedPowerup>,
    pub available_powerup: Option<PowerUpKind>,
    pub planetype: PlaneType,
    pub color: Color,
    pub name: String,
    pub has_used_gun: bool,
    /// Time until the laser fires, while it charges.
    pub laser_charge_time: Option<i64>,
    pub lasering_this_frame: bool,
    pub time_to_next_collision: i64,
}

/// What a `Player` holds, with its powerups as a sequence and its name as
/// text.
pub struct PlayerView {
    pub id: u64,
    pub rotation: i64,
    pub angular_velocity: i64,
    pub wind_effect_velocity: Vec2,
    pub speed: i64,
    pub health: i16,
    pub position: Vec2,
    pub cooldown: i64,
    pub powerups: Seq<AppliedPowerup>,
    pub available_powerup: Option<PowerUpKind>,
    pub planetype: PlaneType,
    pub color: Color,
    pub name: Seq<char>,
    pub has_used_gun: bool,
    pub laser_charge_time: Option<i64>,
    pub lasering_this_frame: bool,
    pub time_to_next_collision: i64,
}

impl View for Player {
    type V = PlayerView;

    open spec fn view(&self) -> PlayerView {
        PlayerView {
            id: self.id,
            rotation: self.rotation,
            angular_velocity: self.angular_velocity,
            wind_effect_velocity: self.wind_effect_velocity,
            speed: self.speed,
            health: self.health,
            position: self.position,
            cooldown: self.cooldown,
            powerups: self.powerups@,
            available_powerup: self.available_powerup,
            planetype: self.planetype,
            color: self.color,
            name: self.name@,
            has_used_gun: self.has_used_gun,
            laser_charge_time: self.laser_charge_time,
            lasering_this_frame: self.lasering_this_frame,
            time_to_next_collision: self.time_to_next_collision,
        }
    }
}

/// The views of the players, in their order.
pub open spec fn player_views(players: Seq<Player>) -> Seq<PlayerView> {
    players.map_values(|p: Player| p@)
}

/// Every one of the players is in a valid state.
pub open spec fn players_wf(players: Seq<PlayerView>) -> bool {
    forall|i: int| 0 <= i < players.len() ==> (#[trigger] players[i]).wf()
}

impl PlayerView {
    /// The player's state is one that the simulation can reach: the health is
    /// between zero and the plane's, the position lies in the world, motion
    /// and timers are within their limits, the applied powerups exclude each
    /// other, and the pending powerup, if any, is one that waits for a
    /// trigger.
    pub open spec fn wf(self) -> bool {
        &&& 0 <= self.health <= self.planetype.spec_health()
        &&& in_world(self.position)
        &&& 0 <= self.rotation < FULL_TURN
        &&& abs(self.angular_velocity as int) <= self.planetype.spec_agility()
        &&& 0 <= self.speed <= MAX_SPEED
        &&& self.wind_effect_velocity.within(WIND_EFFECT_LIMIT as int)
        &&& 0 <= self.cooldown <= PLAYER_COOLDOWN
        &&& match self.laser_charge_time {
            Some(t) => 0 <= t <= LASER_FIRE_TIME,
            None => true,
        }
        &&& 0 <= self.time_to_next_collision <= COLLISION_GRACE_PERIOD
        &&& powerups_exclusive(self.powerups)
        &&& powerups_alive(self.powerups)
        &&& match self.available_powerup {
            Some(kind) => kind.spec_is_triggerable(),
            None => true,
        }
    }

    /// A player who has just joined: at rest at `position`, wrapped into the
    /// world, in full health, with a gun.
    pub open spec fn joined(
        id: u64,
        position: Vec2,
        planetype: PlaneType,
        color: Color,
        name: Seq<char>,
    ) -> PlayerView {
        PlayerView {
            id,
            rotation: 0,
            angular_velocity: 0,
            wind_effect_velocity: Vec2 { x: 0, y: 0 },
            speed: 0,
            health: planetype.spec_health(),
            position: wrapped(position),
            cooldown: 0,
            powerups: seq![AppliedPowerup { kind: PowerUpKind::Gun, duration_left: None }],
            available_powerup: None,
            planetype,
            color,
            name,
            has_used_gun: false,
            laser_charge_time: None,
            lasering_this_frame: false,
            time_to_next_collision: COLLISION_GRACE_PERIOD,
        }
    }
}

impl Player {
    /// A player who has just joined.
    pub fn new(id: u64, position: Vec2, plane_type: PlaneType, color: Color, name: String) -> (r:
        Player)
        ensures
            r@ == PlayerView::joined(id, position, plane_type, color, name@),
            r@.wf(),
    {
        let mut powerups: Vec<AppliedPowerup> = Vec::new();
        powerups.push(AppliedPowerup::new(PowerUpKind::Gun));
        let r = Player {
            id,
            rotation: 0,
            angular_velocity: 0,
            wind_effect_velocity: Vec2 { x: 0, y: 0 },
            speed: 0,
            health: plane_type.health(),
            position: wrap_around(position),
            cooldown: 0,
            powerups,
            available_powerup: None,
            planetype: plane_type,
            color,
            name,
            has_used_gun: false,
            laser_charge_time: None,
            lasering_this_frame: false,
            time_to_next_collision: COLLISION_GRACE_PERIOD,
        };
        assert(r@.powerups =~= seq![
            AppliedPowerup { kind: PowerUpKind::Gun, duration_left: None },
        ]);
        r
    }

    /// Whether the player is in a valid state.
    pub fn is_valid(&self) -> (r: bool)
        ensures
            r == self@.wf(),
    {
        let agility = self.planetype.agility();
        let health_fits = 0 <= self.health && self.health <= self.planetype.health();
        let motion_fits = self.position.is_in_world() && 0 <= self.rotation && self.rotation
            < FULL_TURN && -agility <= self.angular_velocity && self.angular_velocity <= agility
            && 0 <= self.speed && self.speed <= MAX_SPEED && self.wind_effect_velocity.is_within(
            WIND_EFFECT_LIMIT,
        );
        let charge_fits = match self.laser_charge_time {
            Some(t) => 0 <= t && t <= LASER_FIRE_TIME,
            None => true,
        };
        let timers_fit = 0 <= self.cooldown && self.cooldown <= PLAYER_COOLDOWN && charge_fits
            && 0 <= self.time_to_next_collision && self.time_to_next_collision
            <= COLLISION_GRACE_PERIOD;
        let pending_fits = match self.available_powerup {
            Some(kind) => kind.is_triggerable(),
            None => true,
        };
        health_fits && motion_fits && timers_fit && pending_fits && self.powerups_are_valid()
    }
}

} // verus!
