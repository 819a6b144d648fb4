//! Laser beams: they deal damage for a moment, then fade.
use vstd::prelude::*;
use crate::arith::div_trunc;
use crate::constants::{
    FULL_TURN,
    LASER_ACTIVE_TIME,
    LASER_DECAY_TIME,
    LASER_RANGE,
    LASER_RANGE_EXTRA,
    LASER_SAMPLES,
    PLANE_SIZE,
    QUARTER_TURN,
    SCALE,
    WORLD_SIZE,
};
use crate::math::{
    displaced,
    in_world,
    modulo,
    toroidal_distance_sq,
    toroidal_distance_squared,
    wrap_around,
    wrapped,
    Vec2,
};

verus! {

/// The lifetime of a spent beam is counted down to here.
pub const LASER_LIFETIME_FLOOR: i64 = -1_000_000;

/// A laser beam. Its lifetime counts down: above zero the beam deals damage;
/// from zero down to minus the decay time it only shows; below that it is to
/// be removed.
#[derive(Clone, Debug)]
pub struct LaserBeam {
    pub position: Vec2,
    pub angle: i64,
    pub damage: i16,
    pub lifetime: i64,
    pub owner: u64,
    pub owner_name: String,
}

/// What a `LaserBeam` holds, with the owner's name as text.
pub struct LaserBeamView {
    pub position: Vec2,
    pub angle: i64,
    pub damage: i16,
    pub lifetime: i64,
    pub owner: u64,
    pub owner_name: Seq<char>,
}

impl View for LaserBeam {
    type V = LaserBeamView;

    open spec fn view(&self) -> LaserBeamView {
        LaserBeamView {
            position: self.position,
            angle: self.angle,
            damage: self.damage,
            lifetime: self.lifetime,
            owner: self.owner,
            owner_name: self.owner_name@,
        }
    }
}

impl LaserBeamView {
    /// The beam starts in the world, its angle is reduced to a full turn, and
    /// its lifetime is within its limits.
    pub open spec fn wf(self) -> bool {
        &&& in_world(self.position)
        &&& 0 <= self.angle < FULL_TURN
        &&& LASER_LIFETIME_FLOOR <= self.lifetime <= LASER_ACTIVE_TIME
    }

    /// The point of the beam at the given step: the beam runs from its
    /// origin, against the direction a quarter turn ahead of its angle, and
    /// the steps divide its range evenly.
    pub open spec fn sample(self, step: int) -> Vec2 {
        let reach = Vec2::direction(
            self.angle + QUARTER_TURN,
            step * LASER_RANGE / (LASER_SAMPLES as int),
        );
        displaced(self.position, -reach.x, -reach.y)
    }

    /// The beam touches a plane at `position`: one of its sample points is
    /// nearer, the short way round the torus, than the size of a plane and
    /// the beam's allowance together.
    pub open spec fn reaches(self, position: Vec2) -> bool {
        exists|step: int|
            0 <= step < LASER_SAMPLES && #[trigger] toroidal_distance_squared(
                self.sample(step),
                position,
            ) < (PLANE_SIZE + LASER_RANGE_EXTRA) * (PLANE_SIZE + LASER_RANGE_EXTRA)
    }

    /// A beam that has just been fired from `position`, wrapped into the
    /// world: it deals damage for `LASER_ACTIVE_TIME`.
    pub open spec fn fired(
        position: Vec2,
        angle: i64,
        damage: i16,
        owner: u64,
        owner_name: Seq<char>,
    ) -> LaserBeamView {
        LaserBeamView {
            position: wrapped(position),
            angle: (angle % FULL_TURN) as i64,
            damage,
            lifetime: LASER_ACTIVE_TIME,
            owner,
            owner_name,
        }
    }

    /// The beam after `delta` more microseconds.
    pub open spec fn updated(self, delta: int) -> LaserBeamView {
        LaserBeamView {
            lifetime: if self.lifetime - delta < LASER_LIFETIME_FLOOR {
                LASER_LIFETIME_FLOOR
            } else {
                (self.lifetime - delta) as i64
            },
            ..self
        }
    }

    /// The beam deals damage.
    pub open spec fn is_dealing_damage(self) -> bool {
        self.lifetime > 0
    }

    /// The beam has faded and is to be removed.
    pub open spec fn should_be_removed(self) -> bool {
        self.lifetime < -LASER_DECAY_TIME
    }
}

impl LaserBeam {
    /// A beam that has just been fired.
    pub fn new(position: Vec2, angle: i64, damage: i16, owner: u64, owner_name: String) -> (r:
        LaserBeam)
        ensures
            r@ == LaserBeamView::fired(position, angle, damage, owner, owner_name@),
            r@.wf(),
    {
        LaserBeam {
            position: wrap_around(position),
            angle: modulo(angle, FULL_TURN),
            damage,
            lifetime: LASER_ACTIVE_TIME,
            owner,
            owner_name,
        }
    }

    /// Whether the beam is in a valid state.
    pub fn is_valid(&self) -> (r: bool)
        ensures
            r == self@.wf(),
    {
        self.position.is_in_world() && 0 <= self.angle && self.angle < FULL_TURN
            && LASER_LIFETIME_FLOOR <= self.lifetime && self.lifetime <= LASER_ACTIVE_TIME
    }

    /// Runs the beam's lifetime down by `delta` microseconds.
    pub fn update(&mut self, delta: u16)
        requires
            old(self)@.wf(),
        ensures
            final(self)@ == old(self)@.updated(delta as int),
            final(self)@.wf(),
    {
        let left = self.lifetime - delta as i64;
        self.lifetime = if left < LASER_LIFETIME_FLOOR {
            LASER_LIFETIME_FLOOR
        } else {
            left
        };
    }

    /// Whether the beam deals damage.
    pub fn is_dealing_damage(&self) -> (r: bool)
        ensures
            r == self@.is_dealing_damage(),
    {
        self.lifetime > 0
    }

    /// How far the spent beam has faded, in thousandths of the decay time:
    /// zero when it stops dealing damage, a thousand when it is to be
    /// removed; negative while it still deals damage.
    pub fn decay_progress(&self) -> (r: i64)
        requires
            self@.wf(),
        ensures
            r == div_trunc(-self.lifetime * SCALE, LASER_DECAY_TIME as int),
    {
        -self.lifetime * SCALE / LASER_DECAY_TIME
    }

    /// Whether the beam touches a plane at `position`.
    pub fn reaches(&self, position: Vec2) -> (r: bool)
        requires
            self@.wf(),
            in_world(position),
        ensures
            r == self@.reaches(position),
    {
        let hit_radius = PLANE_SIZE + LASER_RANGE_EXTRA;
        let reach = hit_radius * hit_radius;
        let mut step: i64 = 0;
        while step < LASER_SAMPLES
            invariant
                0 <= step <= LASER_SAMPLES,
                self@.wf(),
                in_world(position),
                reach == (PLANE_SIZE + LASER_RANGE_EXTRA) * (PLANE_SIZE + LASER_RANGE_EXTRA),
                forall|s: int|
                    0 <= s < step ==> !(#[trigger] toroidal_distance_squared(
                        self@.sample(s),
                        position,
                    ) < reach),
            decreases LASER_SAMPLES - step,
        {
            let along = Vec2::from_direction(
                self.angle + QUARTER_TURN,
                step * LASER_RANGE / LASER_SAMPLES,
            );
            let point = Vec2 {
                x: modulo(self.position.x - along.x, WORLD_SIZE),
                y: modulo(self.position.y - along.y, WORLD_SIZE),
            };
            assert(point == self@.sample(step as int));
            let distance = toroidal_distance_sq(point, position);
            if distance < reach {
                return true;
            }
            step += 1;
        }
        false
    }

    /// Whether the beam has faded and is to be removed.
    pub fn should_be_removed(&self) -> (r: bool)
        ensures
            r == self@.should_be_removed(),
    {
        self.lifetime < -LASER_DECAY_TIME
    }
}

} // verus!
