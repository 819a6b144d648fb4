//! A player's flight: throttle, steering and the push of the wind.
use vstd::prelude::*;
use crate::arith::{
    abs,
    clamp,
    clamp_int,
    div_trunc,
    integrate,
    lemma_mul_bound,
    over_time,
    scale,
    scaled,
};
use crate::constants::{
    ANGULAR_FADE,
    FULL_TURN,
    HURRICANE_WIND_EFFECT_DECAY,
    MICROS_PER_SECOND,
    MIN_SPEED,
    PLANE_MASS,
    POWERUP_SPEED_BOOST,
    QUARTER_TURN,
    SCALE,
};
use crate::hurricane::Hurricane;
use crate::math::{advance, advanced, modulo, Vec2};
use crate::powerups::PowerUpKind;
use crate::projectiles::{hurricane_wf, wind_at};
use crate::player::effects::has_kind;
use crate::player::{Player, PlayerView};

verus! {

/// Largest magnitude of a component of the velocity that the wind has given a
/// plane: the wind adds less than a fifteenth of its greatest force per tick
/// and a tenth of the effect decays, so the effect never grows beyond this.
pub const WIND_EFFECT_LIMIT: i64 = 6_000_000;

/// Steering and throttle inputs run from minus one to one, in thousandths.
pub const INPUT_LIMIT: i64 = 1_000;

/// A steering or throttle input, held to the range from minus one to one.
pub open spec fn clamped_input(input: int) -> int {
    clamp_int(input, -INPUT_LIMIT as int, INPUT_LIMIT as int)
}

/// Largest magnitude of a component of a plane's own velocity: the highest
/// throttle speed, times the largest factor of a plane, times the boost of
/// the afterburner.
pub const FORWARD_SPEED_LIMIT: i64 = 660_000;

/// What `input`, in thousandths, of a rate per second adds up to in `delta`
/// microseconds, rounded toward zero.
pub open spec fn input_gain(input: int, rate: int, delta: int) -> int {
    div_trunc(input * rate * delta, SCALE * MICROS_PER_SECOND)
}

/// An input within its limits gains, in one tick, less than a fifteenth of
/// the rate.
pub proof fn lemma_input_gain_bound(input: int, rate: int, delta: int)
    requires
        abs(input) <= INPUT_LIMIT,
        0 <= rate <= 1_000_000,
        0 <= delta <= u16::MAX,
    ensures
        15 * abs(input_gain(input, rate, delta)) <= rate,
        abs(input * rate) <= 1_000_000_000,
        abs(input * rate * delta) <= 65_535_000_000_000,
{
    lemma_mul_bound(input, rate, 1_000, rate);
    lemma_mul_bound(input * rate, delta, 1_000 * rate, 65_535);
}

/// What `input`, in thousandths, of a rate per second adds up to in `delta`
/// microseconds.
fn gain_from_input(input: i64, rate: i64, delta: u16) -> (r: i64)
    requires
        abs(input as int) <= INPUT_LIMIT,
        0 <= rate <= 1_000_000,
    ensures
        r == input_gain(input as int, rate as int, delta as int),
        15 * abs(r as int) <= rate,
{
    proof {
        lemma_input_gain_bound(input as int, rate as int, delta as int);
    }
    input * rate * (delta as i64) / (SCALE * MICROS_PER_SECOND)
}

impl PlayerView {
    /// The throttle speed, held between the lowest speed of flight and the
    /// plane's highest.
    pub open spec fn throttle(self) -> int {
        clamp_int(self.speed as int, MIN_SPEED as int, self.planetype.spec_max_speed() as int)
    }

    /// The direction in which the plane's nose points: a quarter turn behind
    /// its rotation.
    pub open spec fn nose(self) -> int {
        self.rotation - QUARTER_TURN
    }

    /// The plane's own velocity: along its nose, at the throttle speed times
    /// the plane's factor, and half as fast again under the afterburner.
    pub open spec fn forward_velocity(self) -> Vec2 {
        let forward = scaled(self.throttle(), self.planetype.spec_speed() as int);
        let heading = Vec2::direction(self.nose(), forward);
        let boost = if has_kind(self.powerups, PowerUpKind::Afterburner) {
            POWERUP_SPEED_BOOST
        } else {
            SCALE
        };
        Vec2 {
            x: scaled(heading.x as int, boost as int) as i64,
            y: scaled(heading.y as int, boost as int) as i64,
        }
    }

    /// The velocity that the wind has given the plane after `delta` more
    /// microseconds: the wind at the plane, divided by the plane's mass, has
    /// added to it, and a part of the sum has decayed.
    pub open spec fn wind_effect(self, hurricane: Option<Hurricane>, delta: int) -> Vec2 {
        let force = wind_at(hurricane, self.position);
        Vec2 {
            x: scaled(
                self.wind_effect_velocity.x + div_trunc(
                    over_time(force.x as int, delta),
                    PLANE_MASS as int,
                ),
                HURRICANE_WIND_EFFECT_DECAY as int,
            ) as i64,
            y: scaled(
                self.wind_effect_velocity.y + div_trunc(
                    over_time(force.y as int, delta),
                    PLANE_MASS as int,
                ),
                HURRICANE_WIND_EFFECT_DECAY as int,
            ) as i64,
        }
    }

    /// The player after `delta` more microseconds of flight with the
    /// throttle input `y_input`: the plane has moved on at its own velocity
    /// plus what the wind gives it, and the throttle speed has followed the
    /// input within the plane's limits.
    pub open spec fn moved(
        self,
        y_input: int,
        hurricane: Option<Hurricane>,
        delta: int,
    ) -> PlayerView {
        let velocity = self.forward_velocity();
        let wind = self.wind_effect(hurricane, delta);
        PlayerView {
            wind_effect_velocity: wind,
            speed: clamp_int(
                self.throttle() + input_gain(
                    clamped_input(y_input),
                    self.planetype.spec_acceleration() as int,
                    delta,
                ),
                MIN_SPEED as int,
                self.planetype.spec_max_speed() as int,
            ) as i64,
            position: advanced(
                self.position,
                Vec2 { x: (velocity.x + wind.x) as i64, y: (velocity.y + wind.y) as i64 },
                delta,
            ),
            ..self
        }
    }

    /// The angular velocity after `delta` more microseconds with the
    /// steering input `x_input`: it has gained from the input, faded, and is
    /// held within the plane's agility.
    pub open spec fn steered_angular_velocity(self, x_input: int, delta: int) -> int {
        let agility = self.planetype.spec_agility() as int;
        clamp_int(
            scaled(
                self.angular_velocity + input_gain(clamped_input(x_input), agility / 10, delta),
                ANGULAR_FADE as int,
            ),
            -agility,
            agility,
        )
    }

    /// The player after `delta` more microseconds of steering with the input
    /// `x_input`: the rotation has turned at the new angular velocity.
    pub open spec fn turned(self, x_input: int, delta: int) -> PlayerView {
        let angular_velocity = self.steered_angular_velocity(x_input, delta);
        PlayerView {
            angular_velocity: angular_velocity as i64,
            rotation: ((self.rotation + over_time(angular_velocity, delta)) % (
            FULL_TURN as int)) as i64,
            ..self
        }
    }

    /// The player after one tick of `delta` microseconds with the given
    /// inputs: timers have run, the plane has flown and turned, and the
    /// powerups have aged.
    pub open spec fn updated(
        self,
        x_input: int,
        y_input: int,
        hurricane: Option<Hurricane>,
        delta: int,
    ) -> PlayerView {
        self.charged(delta).moved(y_input, hurricane, delta).turned(
            x_input,
            delta,
        ).with_aged_powerups(delta)
    }
}

impl Player {
    /// The plane's own velocity; the stored throttle speed is brought within
    /// the plane's limits on the way.
    pub fn final_velocity(&mut self) -> (r: Vec2)
        requires
            old(self)@.wf(),
        ensures
            r == old(self)@.forward_velocity(),
            r.within(FORWARD_SPEED_LIMIT as int),
            final(self)@ == (PlayerView { speed: old(self)@.throttle() as i64, ..old(self)@ }),
            final(self)@.wf(),
    {
        let has_speed_boost = self.weapon_is_wielded(PowerUpKind::Afterburner);
        let speed_boost = if has_speed_boost {
            POWERUP_SPEED_BOOST
        } else {
            SCALE
        };
        self.speed = clamp(self.speed, MIN_SPEED, self.planetype.max_speed());
        let forward = scale(self.speed, self.planetype.speed());
        let heading = Vec2::from_direction(self.rotation - QUARTER_TURN, forward);
        proof {
            lemma_mul_bound(heading.x as int, speed_boost as int, 440_000, 1_500);
            lemma_mul_bound(heading.y as int, speed_boost as int, 440_000, 1_500);
        }
        heading.mul(speed_boost)
    }

    /// The velocity that the wind has given the plane after `delta` more
    /// microseconds.
    fn update_wind_effect_velocity(&self, hurricane: &Option<Hurricane>, delta: u16) -> (r: Vec2)
        requires
            self@.wf(),
            hurricane_wf(*hurricane),
        ensures
            r == self@.wind_effect(*hurricane, delta as int),
            r.within(WIND_EFFECT_LIMIT as int),
    {
        let wind_force = match hurricane {
            Some(hurricane) => hurricane.get_wind_force_at_position(self.position),
            None => Vec2 { x: 0, y: 0 },
        };
        let gain_x = integrate(wind_force.x, delta) / PLANE_MASS;
        let gain_y = integrate(wind_force.y, delta) / PLANE_MASS;
        Vec2 {
            x: scale(self.wind_effect_velocity.x + gain_x, HURRICANE_WIND_EFFECT_DECAY),
            y: scale(self.wind_effect_velocity.y + gain_y, HURRICANE_WIND_EFFECT_DECAY),
        }
    }

    /// Flies the plane on by `delta` microseconds with the throttle input
    /// `y_input`.
    fn update_velocity_and_position(
        &mut self,
        y_input: i64,
        hurricane: &Option<Hurricane>,
        delta: u16,
    )
        requires
            old(self)@.wf(),
            hurricane_wf(*hurricane),
        ensures
            final(self)@ == old(self)@.moved(y_input as int, *hurricane, delta as int),
            final(self)@.wf(),
    {
        let velocity = self.final_velocity();
        self.wind_effect_velocity = self.update_wind_effect_velocity(hurricane, delta);
        let throttle_input = clamp(y_input, -INPUT_LIMIT, INPUT_LIMIT);
        let gain = gain_from_input(throttle_input, self.planetype.acceleration(), delta);
        self.speed = clamp(self.speed + gain, MIN_SPEED, self.planetype.max_speed());
        self.position = advance(self.position, velocity.add(self.wind_effect_velocity), delta);
    }

    /// Turns the plane for `delta` microseconds with the steering input
    /// `x_input`.
    fn update_angular_velocity_and_rotation(&mut self, x_input: i64, delta: u16)
        requires
            old(self)@.wf(),
        ensures
            final(self)@ == old(self)@.turned(x_input as int, delta as int),
            final(self)@.wf(),
    {
        let agility = self.planetype.agility();
        let steering_input = clamp(x_input, -INPUT_LIMIT, INPUT_LIMIT);
        let angular_acceleration = gain_from_input(steering_input, agility / 10, delta);
        let faded = scale(self.angular_velocity + angular_acceleration, ANGULAR_FADE);
        self.angular_velocity = clamp(faded, -agility, agility);
        self.rotation = modulo(self.rotation + integrate(self.angular_velocity, delta), FULL_TURN);
    }

    /// Moves the player on by one tick of `delta` microseconds. The inputs
    /// run from minus one to one, in thousandths, and are held to that
    /// range.
    pub fn update(&mut self, x_input: i64, y_input: i64, hurricane: &Option<Hurricane>, delta: u16)
        requires
            old(self)@.wf(),
            hurricane_wf(*hurricane),
        ensures
            final(self)@ == old(self)@.updated(
                x_input as int,
                y_input as int,
                *hurricane,
                delta as int,
            ),
            final(self)@.wf(),
    {
        self.update_laser_charge(delta);
        self.update_velocity_and_position(y_input, hurricane, delta);
        self.update_angular_velocity_and_rotation(x_input, delta);
        self.manage_powerups(delta);
    }
}

} // verus!
