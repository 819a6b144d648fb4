//! Bullets: they fly straight but for the wind.
use vstd::prelude::*;
use crate::arith::{clamp, clamp_int, integrate, over_time};
use crate::constants::{BULLET_ARM_TIME, BULLET_MAX_TRAVEL};
use crate::hurricane::Hurricane;
use crate::math::{advance, advanced, in_world, wrap_around, wrapped, Vec2};
use crate::random::random_below;
use crate::projectiles::{hurricane_wf, wind_at, LIFETIME_LIMIT};

verus! {

/// Largest magnitude of a component of a bullet's velocity: the wind cannot
/// push a bullet beyond it.
pub const PROJECTILE_SPEED_LIMIT: i64 = 100_000_000;

/// The distance that a bullet is counted to have travelled stops here.
pub const TRAVEL_LIMIT: i64 = 1_000_000_000_000;

/// A bullet: it flies straight but for the wind, is armed a moment after it
/// was fired, and is spent once it has travelled its range.
#[derive(Clone, Debug)]
pub struct Bullet {
    pub id: u64,
    pub position: Vec2,
    pub velocity: Vec2,
    pub traveled_distance: i64,
    pub damage: i16,
    pub lifetime: i64,
    pub owner: u64,
    pub owner_name: String,
}

/// What a `Bullet` holds, with the owner's name as text.
pub struct BulletView {
    pub id: u64,
    pub position: Vec2,
    pub velocity: Vec2,
    pub traveled_distance: i64,
    pub damage: i16,
    pub lifetime: i64,
    pub owner: u64,
    pub owner_name: Seq<char>,
}

impl View for Bullet {
    type V = BulletView;

    open spec fn view(&self) -> BulletView {
        BulletView {
            id: self.id,
            position: self.position,
            velocity: self.velocity,
            traveled_distance: self.traveled_distance,
            damage: self.damage,
            lifetime: self.lifetime,
            owner: self.owner,
            owner_name: self.owner_name@,
        }
    }
}

impl BulletView {
    /// The bullet lies in the world, and its velocity and counters are within
    /// their limits.
    pub open spec fn wf(self) -> bool {
        &&& in_world(self.position)
        &&& self.velocity.within(PROJECTILE_SPEED_LIMIT as int)
        &&& 0 <= self.traveled_distance <= TRAVEL_LIMIT
        &&& 0 <= self.lifetime <= LIFETIME_LIMIT
    }

    /// A bullet that has just been fired: at `position`, wrapped into the
    /// world, with each component of `velocity` held to the limit.
    pub open spec fn fired(
        id: u64,
        position: Vec2,
        velocity: Vec2,
        damage: i16,
        owner: u64,
        owner_name: Seq<char>,
    ) -> BulletView {
        BulletView {
            id,
            position: wrapped(position),
            velocity: Vec2 {
                x: clamp_int(
                    velocity.x as int,
                    -PROJECTILE_SPEED_LIMIT as int,
                    PROJECTILE_SPEED_LIMIT as int,
                ) as i64,
                y: clamp_int(
                    velocity.y as int,
                    -PROJECTILE_SPEED_LIMIT as int,
                    PROJECTILE_SPEED_LIMIT as int,
                ) as i64,
            },
            traveled_distance: 0,
            damage,
            lifetime: 0,
            owner,
            owner_name,
        }
    }

    /// The velocity after the wind has blown on the bullet for `delta`
    /// microseconds, each component held to the limit.
    pub open spec fn blown_velocity(self, hurricane: Option<Hurricane>, delta: int) -> Vec2 {
        let wind = wind_at(hurricane, self.position);
        Vec2 {
            x: clamp_int(
                self.velocity.x + over_time(wind.x as int, delta),
                -PROJECTILE_SPEED_LIMIT as int,
                PROJECTILE_SPEED_LIMIT as int,
            ) as i64,
            y: clamp_int(
                self.velocity.y + over_time(wind.y as int, delta),
                -PROJECTILE_SPEED_LIMIT as int,
                PROJECTILE_SPEED_LIMIT as int,
            ) as i64,
        }
    }

    /// The bullet after `delta` more microseconds: the wind has changed its
    /// velocity, it has moved on at the new velocity, and the distance and
    /// the time of its flight have grown.
    pub open spec fn updated(self, hurricane: Option<Hurricane>, delta: int) -> BulletView {
        let velocity = self.blown_velocity(hurricane, delta);
        let step = over_time(velocity.norm_floor(), delta);
        BulletView {
            velocity,
            position: advanced(self.position, velocity, delta),
            traveled_distance: if self.traveled_distance + step > TRAVEL_LIMIT {
                TRAVEL_LIMIT
            } else {
                (self.traveled_distance + step) as i64
            },
            lifetime: if self.lifetime + delta > LIFETIME_LIMIT {
                LIFETIME_LIMIT
            } else {
                (self.lifetime + delta) as i64
            },
            ..self
        }
    }

    /// The bullet can hit: it has flown for longer than the arming delay.
    pub open spec fn is_armed(self) -> bool {
        self.lifetime > BULLET_ARM_TIME
    }

    /// The bullet is spent: it has travelled farther than its range.
    pub open spec fn is_done(self) -> bool {
        self.traveled_distance > BULLET_MAX_TRAVEL
    }
}

impl Bullet {
    /// A bullet that has just been fired, with the given id.
    pub fn with_id(
        id: u64,
        position: Vec2,
        velocity: Vec2,
        damage: i16,
        owner: u64,
        owner_name: String,
    ) -> (r: Bullet)
        ensures
            r@ == BulletView::fired(id, position, velocity, damage, owner, owner_name@),
            r@.wf(),
    {
        Bullet {
            id,
            position: wrap_around(position),
            velocity: Vec2 {
                x: clamp(velocity.x, -PROJECTILE_SPEED_LIMIT, PROJECTILE_SPEED_LIMIT),
                y: clamp(velocity.y, -PROJECTILE_SPEED_LIMIT, PROJECTILE_SPEED_LIMIT),
            },
            traveled_distance: 0,
            damage,
            lifetime: 0,
            owner,
            owner_name,
        }
    }

    /// A bullet that has just been fired, with an id drawn at random.
    pub fn new(position: Vec2, velocity: Vec2, damage: i16, owner: u64, owner_name: String) -> (r:
        Bullet)
        ensures
            r@ == BulletView::fired(r.id, position, velocity, damage, owner, owner_name@),
            r.id < u64::MAX,
            r@.wf(),
    {
        let id = random_below(u64::MAX);
        Self::with_id(id, position, velocity, damage, owner, owner_name)
    }

    /// Whether the bullet is in a valid state.
    pub fn is_valid(&self) -> (r: bool)
        ensures
            r == self@.wf(),
    {
        self.position.is_in_world() && self.velocity.is_within(PROJECTILE_SPEED_LIMIT) && 0
            <= self.traveled_distance && self.traveled_distance <= TRAVEL_LIMIT && 0
            <= self.lifetime && self.lifetime <= LIFETIME_LIMIT
    }

    /// Moves the bullet on by `delta` microseconds.
    pub fn update(&mut self, delta: u16, hurricane: &Option<Hurricane>)
        requires
            old(self)@.wf(),
            hurricane_wf(*hurricane),
        ensures
            final(self)@ == old(self)@.updated(*hurricane, delta as int),
            final(self)@.wf(),
    {
        let wind = match hurricane {
            Some(h) => h.get_wind_force_at_position(self.position),
            None => Vec2 { x: 0, y: 0 },
        };
        self.velocity = Vec2 {
            x: clamp(
                self.velocity.x + integrate(wind.x, delta),
                -PROJECTILE_SPEED_LIMIT,
                PROJECTILE_SPEED_LIMIT,
            ),
            y: clamp(
                self.velocity.y + integrate(wind.y, delta),
                -PROJECTILE_SPEED_LIMIT,
                PROJECTILE_SPEED_LIMIT,
            ),
        };
        self.position = advance(self.position, self.velocity, delta);
        let speed = self.velocity.norm();
        proof {
            self.velocity.lemma_normalized(speed as int);
        }
        let step = integrate(speed, delta);
        self.traveled_distance = if self.traveled_distance + step > TRAVEL_LIMIT {
            TRAVEL_LIMIT
        } else {
            self.traveled_distance + step
        };
        self.lifetime = if self.lifetime + delta as i64 > LIFETIME_LIMIT {
            LIFETIME_LIMIT
        } else {
            self.lifetime + delta as i64
        };
    }

    /// Whether the bullet can hit.
    pub fn is_armed(&self) -> (r: bool)
        ensures
            r == self@.is_armed(),
    {
        self.lifetime > BULLET_ARM_TIME
    }

    /// Whether the bullet is spent.
    pub fn is_done(&self) -> (r: bool)
        ensures
            r == self@.is_done(),
    {
        self.traveled_distance > BULLET_MAX_TRAVEL
    }

    /// The id of the player who fired the bullet.
    pub fn get_shooter(&self) -> (r: u64)
        ensures
            r == self.owner,
    {
        self.owner
    }

    /// The name of the player who fired the bullet.
    pub fn get_shooter_name(&self) -> (r: String)
        ensures
            r@ == self.owner_name@,
    {
        self.owner_name.clone()
    }

    /// Where the bullet is.
    pub fn get_position(&self) -> (r: Vec2)
        ensures
            r == self.position,
    {
        self.position
    }

    /// The damage of a hit by the bullet.
    pub fn get_damage(&self) -> (r: i16)
        ensures
            r == self.damage,
    {
        self.damage
    }

    /// The bullet's id.
    pub fn get_id(&self) -> (r: u64)
        ensures
            r == self.id,
    {
        self.id
    }
}

} // verus!
