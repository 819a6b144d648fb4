//! The hurricane: a roaming hazard that grows, holds, shrinks and dies, and
//! whose wind turns around its eye.
use vstd::prelude::*;
use crate::arith::{
    abs,
    clamp,
    clamp_int,
    div_trunc,
    integrate,
    lemma_mul_bound,
    over_time,
};
use crate::constants::{
    FULL_TURN,
    HURRICANE_EYE_SIZE,
    HURRICANE_FULL_SIZE,
    HURRICANE_GROW_SPEED,
    HURRICANE_MAX_SIZE,
    HURRICANE_MAX_WINDSPEED,
    HURRICANE_MOVE_SPEED,
    HURRICANE_ROTATION_SPEED,
    HURRICANE_SUSTAIN_TIME,
    WORLD_SIZE,
};
use crate::math::{
    advance,
    advanced,
    closest_vector,
    closest_vector_to,
    in_world,
    modulo,
    wrap_around,
    wrapped,
    Vec2,
};

verus! {

/// The phase of a hurricane's life; while it holds its full size it counts
/// down the time left.
#[derive(Clone, Copy, Debug, PartialEq, Eq, Structural)]
pub enum HurricaneStatus {
    Growing,
    Sustaining(i64),
    Shrinking,
    Dead,
}

/// A hurricane: where it is, how it drifts and turns, and how far it has
/// grown.
#[derive(Clone, Copy, Debug, PartialEq, Eq, Structural)]
pub struct Hurricane {
    pub position: Vec2,
    pub velocity: Vec2,
    pub rotation: i64,
    /// The fraction of the full diameter reached, in millionths.
    pub size: i64,
    pub status: HurricaneStatus,
}

/// A component of at most `d` in magnitude, times a strength, divided by `d`,
/// is at most the strength.
pub proof fn lemma_share_of_strength(c: int, strength: int, d: int)
    by (nonlinear_arith)
    requires
        d > 0,
        abs(c) <= d,
        strength >= 0,
    ensures
        abs(div_trunc(c * strength, d)) <= strength,
        abs(c * strength) <= d * strength,
{
}

impl Hurricane {
    /// The hurricane is in the world, moves no faster than hurricanes do, and
    /// its size fits its phase: below full while growing, full while
    /// sustaining, above zero while shrinking, zero when dead.
    pub open spec fn wf(self) -> bool {
        &&& in_world(self.position)
        &&& self.velocity.within(HURRICANE_MOVE_SPEED as int)
        &&& 0 <= self.rotation < FULL_TURN
        &&& 0 <= self.size <= HURRICANE_FULL_SIZE
        &&& match self.status {
            HurricaneStatus::Growing => self.size < HURRICANE_FULL_SIZE,
            HurricaneStatus::Sustaining(time_left) => self.size == HURRICANE_FULL_SIZE && 0
                < time_left <= HURRICANE_SUSTAIN_TIME,
            HurricaneStatus::Shrinking => self.size > 0,
            HurricaneStatus::Dead => self.size == 0,
        }
    }

    /// A new hurricane: a point at `position`, wrapped into the world, that
    /// starts to grow and drifts at `velocity`, each component of which is
    /// held to `HURRICANE_MOVE_SPEED`.
    pub open spec fn created(position: Vec2, velocity: Vec2) -> Hurricane {
        Hurricane {
            position: wrapped(position),
            velocity: Vec2 {
                x: clamp_int(
                    velocity.x as int,
                    -HURRICANE_MOVE_SPEED as int,
                    HURRICANE_MOVE_SPEED as int,
                ) as i64,
                y: clamp_int(
                    velocity.y as int,
                    -HURRICANE_MOVE_SPEED as int,
                    HURRICANE_MOVE_SPEED as int,
                ) as i64,
            },
            rotation: 0,
            size: 0,
            status: HurricaneStatus::Growing,
        }
    }

    /// The size and the phase after `delta` microseconds. A growing hurricane
    /// starts to sustain when its size reaches the full size; a sustaining one
    /// starts to shrink when its time is up; a shrinking one dies when its
    /// size reaches zero.
    pub open spec fn grown(self, delta: int) -> (int, HurricaneStatus) {
        let growth = over_time(HURRICANE_GROW_SPEED as int, delta);
        match self.status {
            HurricaneStatus::Growing => if self.size + growth >= HURRICANE_FULL_SIZE {
                (HURRICANE_FULL_SIZE as int, HurricaneStatus::Sustaining(HURRICANE_SUSTAIN_TIME))
            } else {
                (self.size + growth, HurricaneStatus::Growing)
            },
            HurricaneStatus::Sustaining(time_left) => if time_left - delta <= 0 {
                (self.size as int, HurricaneStatus::Shrinking)
            } else {
                (self.size as int, HurricaneStatus::Sustaining((time_left - delta) as i64))
            },
            HurricaneStatus::Shrinking => if self.size - growth <= 0 {
                (0, HurricaneStatus::Dead)
            } else {
                (self.size - growth, HurricaneStatus::Shrinking)
            },
            HurricaneStatus::Dead => (self.size as int, HurricaneStatus::Dead),
        }
    }

    /// The hurricane after `delta` microseconds: it has drifted, turned, and
    /// grown or shrunk as its phase says.
    pub open spec fn updated(self, delta: int) -> Hurricane {
        Hurricane {
            position: advanced(self.position, self.velocity, delta),
            velocity: self.velocity,
            rotation: ((self.rotation + over_time(HURRICANE_ROTATION_SPEED as int, delta)) % (
            FULL_TURN as int)) as i64,
            size: self.grown(delta).0 as i64,
            status: self.grown(delta).1,
        }
    }

    /// The diameter that the hurricane has reached.
    pub open spec fn diameter(self) -> int {
        div_trunc(self.size * HURRICANE_MAX_SIZE, HURRICANE_FULL_SIZE as int)
    }

    /// The strength of the wind at the distance `dist` from the centre: none
    /// inside the eye and none from the rim outwards; in between it falls off
    /// in a straight line toward the rim.
    pub open spec fn wind_strength(self, dist: int) -> int {
        let radius = self.diameter() / 2;
        if dist < HURRICANE_EYE_SIZE || dist >= radius {
            0
        } else {
            div_trunc(HURRICANE_MAX_WINDSPEED * (radius - dist), HURRICANE_MAX_SIZE / 2)
        }
    }

    /// The wind at `position`: it blows at right angles to the line from the
    /// centre, counted the short way round the torus, with the strength that
    /// belongs to the distance.
    pub open spec fn wind_at(self, position: Vec2) -> Vec2 {
        let c = closest_vector(self.position, wrapped(position));
        let dist = c.norm_floor();
        let strength = self.wind_strength(dist);
        if strength == 0 {
            Vec2 { x: 0, y: 0 }
        } else {
            Vec2 {
                x: div_trunc(-c.y * strength, dist) as i64,
                y: div_trunc(c.x * strength, dist) as i64,
            }
        }
    }

    /// The size never shrinks before the hurricane has sustained, holds while
    /// it sustains, and never grows afterwards; and a hurricane that is not
    /// dead after a tick was not dead before it.
    pub proof fn lemma_size_is_monotonic(self, delta: int)
        requires
            self.wf(),
            0 <= delta <= u16::MAX,
        ensures
            self.status is Growing ==> self.updated(delta).size >= self.size,
            self.status is Sustaining ==> self.updated(delta).size == self.size,
            self.status is Shrinking ==> self.updated(delta).size <= self.size,
            self.status is Shrinking ==> self.updated(delta).status is Shrinking
                || self.updated(delta).status is Dead,
            self.status is Dead ==> self.updated(delta) == (Hurricane {
                position: self.updated(delta).position,
                rotation: self.updated(delta).rotation,
                ..self
            }),
            self.updated(delta).status is Sustaining && self.status is Growing
                ==> self.updated(delta).size == HURRICANE_FULL_SIZE,
            self.updated(delta).wf(),
    {
    }

    /// Whether the hurricane is in a valid state.
    pub fn is_valid(&self) -> (r: bool)
        ensures
            r == self.wf(),
    {
        self.position.is_in_world() && self.velocity.is_within(HURRICANE_MOVE_SPEED) && 0
            <= self.rotation && self.rotation < FULL_TURN && 0 <= self.size && self.size
            <= HURRICANE_FULL_SIZE && match self.status {
            HurricaneStatus::Growing => self.size < HURRICANE_FULL_SIZE,
            HurricaneStatus::Sustaining(time_left) => self.size == HURRICANE_FULL_SIZE && 0
                < time_left && time_left <= HURRICANE_SUSTAIN_TIME,
            HurricaneStatus::Shrinking => self.size > 0,
            HurricaneStatus::Dead => self.size == 0,
        }
    }

    /// A new hurricane at `position` that drifts at `velocity`.
    pub fn new(position: Vec2, velocity: Vec2) -> (r: Hurricane)
        ensures
            r == Self::created(position, velocity),
            r.wf(),
    {
        Hurricane {
            position: wrap_around(position),
            velocity: Vec2 {
                x: clamp(velocity.x, -HURRICANE_MOVE_SPEED, HURRICANE_MOVE_SPEED),
                y: clamp(velocity.y, -HURRICANE_MOVE_SPEED, HURRICANE_MOVE_SPEED),
            },
            rotation: 0,
            size: 0,
            status: HurricaneStatus::Growing,
        }
    }

    /// Moves the hurricane on by `delta` microseconds.
    pub fn update(&mut self, delta: u16)
        requires
            old(self).wf(),
        ensures
            *final(self) == old(self).updated(delta as int),
            final(self).wf(),
    {
        self.position = advance(self.position, self.velocity, delta);
        self.rotation = modulo(
            self.rotation + integrate(HURRICANE_ROTATION_SPEED, delta),
            FULL_TURN,
        );
        let growth = integrate(HURRICANE_GROW_SPEED, delta);
        match self.status {
            HurricaneStatus::Growing => {
                self.size = self.size + growth;
                if self.size >= HURRICANE_FULL_SIZE {
                    self.size = HURRICANE_FULL_SIZE;
                    self.status = HurricaneStatus::Sustaining(HURRICANE_SUSTAIN_TIME);
                }
            },
            HurricaneStatus::Sustaining(time_left) => {
                let left = time_left - delta as i64;
                if left <= 0 {
                    self.status = HurricaneStatus::Shrinking;
                } else {
                    self.status = HurricaneStatus::Sustaining(left);
                }
            },
            HurricaneStatus::Shrinking => {
                self.size = self.size - growth;
                if self.size <= 0 {
                    self.size = 0;
                    self.status = HurricaneStatus::Dead;
                }
            },
            HurricaneStatus::Dead => {},
        }
    }

    /// The diameter that the hurricane has reached.
    pub fn size(&self) -> (r: i64)
        requires
            self.wf(),
        ensures
            r == self.diameter(),
            0 <= r <= HURRICANE_MAX_SIZE,
    {
        self.size * HURRICANE_MAX_SIZE / HURRICANE_FULL_SIZE
    }

    /// The wind at `position`.
    pub fn get_wind_force_at_position(&self, position: Vec2) -> (r: Vec2)
        requires
            self.wf(),
        ensures
            r == self.wind_at(position),
            r.within(HURRICANE_MAX_WINDSPEED as int),
    {
        let center_to_point = closest_vector_to(self.position, wrap_around(position));
        let dist = center_to_point.norm();
        let radius = self.size() / 2;
        proof {
            center_to_point.lemma_normalized(dist as int);
        }
        if dist < HURRICANE_EYE_SIZE || dist >= radius {
            Vec2 { x: 0, y: 0 }
        } else {
            let strength = HURRICANE_MAX_WINDSPEED * (radius - dist) / (HURRICANE_MAX_SIZE / 2);
            if strength == 0 {
                Vec2 { x: 0, y: 0 }
            } else {
                proof {
                    lemma_share_of_strength(
                        -center_to_point.y as int,
                        strength as int,
                        dist as int,
                    );
                    lemma_share_of_strength(center_to_point.x as int, strength as int, dist as int);
                    lemma_mul_bound(
                        -center_to_point.y as int,
                        strength as int,
                        WORLD_SIZE as int,
                        HURRICANE_MAX_WINDSPEED as int,
                    );
                    lemma_mul_bound(
                        center_to_point.x as int,
                        strength as int,
                        WORLD_SIZE as int,
                        HURRICANE_MAX_WINDSPEED as int,
                    );
                }
                Vec2 {
                    x: -center_to_point.y * strength / dist,
                    y: center_to_point.x * strength / dist,
                }
            }
        }
    }

    /// Whether the hurricane has died and is to be removed.
    pub fn is_dead(&self) -> (r: bool)
        ensures
            r == (self.status is Dead),
    {
        match self.status {
            HurricaneStatus::Dead => true,
            _ => false,
        }
    }
}

} // verus!
