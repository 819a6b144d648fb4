//! Tuning constants of the game, in the fixed-point units of this crate:
//! lengths in thousandths of a world unit, times in microseconds, angles in
//! milliradians, ratios in thousandths, speeds in thousandths of a world unit
//! per second.
use vstd::prelude::*;

verus! {

/// Thousandths per whole: the scale of lengths, ratios and factors.
pub const SCALE: i64 = 1_000;

/// Microseconds per second.
pub const MICROS_PER_SECOND: i64 = 1_000_000;

/// Half a turn (the angle pi).
pub const HALF_TURN: i64 = 3_142;

/// A full turn.
pub const FULL_TURN: i64 = 6_284;

/// A quarter of a turn.
pub const QUARTER_TURN: i64 = 1_571;

/// The size of a plane: planes collide within twice of it, and projectiles
/// strike within `BULLET_RADIUS` times it.
pub const PLANE_SIZE: i64 = 20_000;

/// The factor between the size of a plane and the distance within which a
/// projectile strikes it.
pub const BULLET_RADIUS: i64 = 1;

/// The size of a powerup: a plane picks it up within this distance plus its
/// own size.
pub const POWERUP_RADIUS: i64 = 20_000;

/// The factor by which the afterburner speeds a plane up.
pub const POWERUP_SPEED_BOOST: i64 = 1_500;

/// Side length of the square world; both axes wrap at this length.
pub const WORLD_SIZE: i64 = 3_000_000;

/// Length of one server tick.
pub const DELTA_TIME: u16 = 10_000;

/// Time between two ticks of the server, in milliseconds.
pub const SERVER_SLEEP_DURATION: u64 = 10;

/// The highest throttle speed of any plane.
pub const MAX_SPEED: i64 = 400_000;

/// The lowest speed of flight.
pub const MIN_SPEED: i64 = 50_000;

/// The gain of throttle speed per second that plane types scale.
pub const DEFAULT_ACCELERATION: i64 = 200_000;

/// The health that plane types scale.
pub const DEFAULT_HEALTH: i16 = 150;

/// The mass of a plane: the wind pushes a plane with its force divided by
/// the mass.
pub const PLANE_MASS: i64 = 1;

/// The angular velocity, per second, that plane types scale.
pub const DEFAULT_AGILITY: i64 = 100_000;

/// The part of its angular velocity that a plane keeps from tick to tick.
pub const ANGULAR_FADE: i64 = 900;

/// The speed at which a bullet leaves a plane, on top of the plane's own.
pub const BULLET_VELOCITY: i64 = 600_000;

/// The damage of a bullet that plane types scale.
pub const BULLET_DAMAGE: i16 = 10;

/// The distance after which a bullet is spent.
pub const BULLET_MAX_TRAVEL: i64 = 900_000;

/// The distance ahead of a plane's position at which its projectiles start.
pub const BULLET_START: i64 = 30_000;

/// The time between two shots of a plane.
pub const PLAYER_COOLDOWN: i64 = 200_000;

/// The time of flight after which a bullet can hit.
pub const BULLET_ARM_TIME: i64 = 30_000;

/// Time between the start of a laser charge and the beam.
pub const LASER_FIRE_TIME: i64 = 800_000;

/// Time during which a beam deals damage.
pub const LASER_ACTIVE_TIME: i64 = 20_000;

/// Time during which a spent beam lingers without dealing damage.
pub const LASER_DECAY_TIME: i64 = 300_000;

/// Length of a beam.
pub const LASER_RANGE: i64 = 300_000;

/// The damage of a beam.
pub const LASER_DAMAGE: i16 = 500;

/// What a beam reaches beyond the size of a plane.
pub const LASER_RANGE_EXTRA: i64 = 10_000;

/// Number of evenly spaced points at which a beam is tested against a plane.
pub const LASER_SAMPLES: i64 = 100;

/// Proportional gain of the missile's steering, per second squared.
pub const MISSILE_KOH_PEY: i64 = 10;

/// The highest speed of a missile.
pub const MISSILE_MAX_SPEED: i64 = 6_000;

/// The gain of a missile's speed per second.
pub const MISSILE_ACCELERATION: i64 = 500;

/// The time of flight after which a missile is spent.
pub const MISSILE_LIFE_TIME: i64 = 3_000_000;

/// Number of unclaimed powerups that the world is topped up to.
pub const POWERUP_AMOUNT: usize = 10;

/// The health that a health powerup restores.
pub const POWERUP_HEALTH_BOOST: i16 = 40;

/// Divisor of the tick length while any player holds the slow-time powerup.
pub const POWERUP_SLOWTIME_FACTOR: u16 = 3;

/// The damage of a collision between planes.
pub const COLLISION_DAMAGE: i16 = 40;

/// The time for which a plane is spared further collisions after one.
pub const COLLISION_GRACE_PERIOD: i64 = 1_000_000;

/// The time for which an announcement stays in the kill feed.
pub const KILLFEED_DURATION: i64 = 4_000_000;

/// Number of kill-feed messages handed to a consumer at most.
pub const KILLFEED_VISIBLE: usize = 4;

/// A hurricane appears in an empty sky when a draw below
/// `HURRICANE_DRAW_RANGE` is less than this rate times the tick length in
/// microseconds: a chance of five in a thousand per second.
pub const HURRICANE_SPAWN_RATE: u64 = 5;

/// The range of the draw that decides whether a hurricane appears.
pub const HURRICANE_DRAW_RANGE: u64 = 1_000_000_000;

/// The highest speed, on each axis, at which a hurricane drifts.
pub const HURRICANE_MOVE_SPEED: i64 = 30_000;

/// A hurricane's size is a fraction of its full diameter, in millionths.
pub const HURRICANE_FULL_SIZE: i64 = 1_000_000;

/// Growth of the size per second, in millionths.
pub const HURRICANE_GROW_SPEED: i64 = 100_000;

/// Diameter of a fully grown hurricane.
pub const HURRICANE_MAX_SIZE: i64 = 2_500_000;

/// The force of the wind at its strongest, as speed gained per second.
pub const HURRICANE_MAX_WINDSPEED: i64 = 10_000_000;

/// The time for which a hurricane holds its full size.
pub const HURRICANE_SUSTAIN_TIME: i64 = 30_000_000;

/// The radius of the eye, in which no wind blows.
pub const HURRICANE_EYE_SIZE: i64 = 100_000;

/// The part of the wind's effect on a plane that lasts from tick to tick.
pub const HURRICANE_WIND_EFFECT_DECAY: i64 = 900;

/// The angular velocity at which a hurricane turns, per second.
pub const HURRICANE_ROTATION_SPEED: i64 = 500;

/// Longest display width of a player's name, in columns.
pub const NAME_WIDTH: usize = 20;

} // verus!
