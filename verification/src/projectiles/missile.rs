//! Homing missiles: they steer toward the nearest player but their owner.
use vstd::prelude::*;
use crate::arith::{abs, clamp, clamp_int, integrate, lemma_over_time_bound, over_time};
use crate::constants::{
    FULL_TURN,
    HALF_TURN,
    MISSILE_ACCELERATION,
    MISSILE_KOH_PEY,
    MISSILE_LIFE_TIME,
    MISSILE_MAX_SPEED,
};
use crate::math::{
    advance,
    advanced,
    angle_diff,
    closest_vector,
    closest_vector_to,
    in_world,
    modulo,
    toroidal_distance_sq,
    toroidal_distance_squared,
    wrap_around,
    wrapped,
    Vec2,
};
use crate::player::{player_views, players_wf, Player, PlayerView};
use crate::random::random_below;
use crate::trig::{bearing, turn_between};
use crate::projectiles::LIFETIME_LIMIT;

verus! {

/// Largest magnitude of a missile's angular velocity.
pub const TURN_RATE_LIMIT: i64 = 1_000_000_000;

/// A homing missile: each tick it steers toward the nearest player other than
/// its owner; it is always armed and is spent after a fixed time.
#[derive(Clone, Debug)]
pub struct Missile {
    pub id: u64,
    pub angular_velocity: i64,
    pub angle: i64,
    pub position: Vec2,
    pub lifetime: i64,
    pub damage: i16,
    pub owner: u64,
    pub owner_name: String,
    pub speed: i64,
}

/// What a `Missile` holds, with the owner's name as text.
pub struct MissileView {
    pub id: u64,
    pub angular_velocity: i64,
    pub angle: i64,
    pub position: Vec2,
    pub lifetime: i64,
    pub damage: i16,
    pub owner: u64,
    pub owner_name: Seq<char>,
    pub speed: i64,
}

impl View for Missile {
    type V = MissileView;

    open spec fn view(&self) -> MissileView {
        MissileView {
            id: self.id,
            angular_velocity: self.angular_velocity,
            angle: self.angle,
            position: self.position,
            lifetime: self.lifetime,
            damage: self.damage,
            owner: self.owner,
            owner_name: self.owner_name@,
            speed: self.speed,
        }
    }
}

/// The player at `index` is the one that a missile of `owner` at `from`
/// would lock on to if the first `count` players were all there are: it is
/// one of them and not the owner, none of them but the owner is nearer the
/// short way round the torus, and of those equally near it comes first.
pub open spec fn is_target_among(
    players: Seq<PlayerView>,
    owner: u64,
    from: Vec2,
    count: int,
    index: int,
) -> bool {
    &&& 0 <= index < count <= players.len()
    &&& players[index].id != owner
    &&& forall|j: int|
        0 <= j < count && (#[trigger] players[j]).id != owner ==> {
            let nearest = toroidal_distance_squared(from, players[index].position);
            let other = toroidal_distance_squared(from, players[j].position);
            nearest < other || (nearest == other && index <= j)
        }
}

/// The player at `index` is the one that a missile of `owner` at `from` locks
/// on to.
pub open spec fn is_target(players: Seq<PlayerView>, owner: u64, from: Vec2, index: int) -> bool {
    is_target_among(players, owner, from, players.len() as int, index)
}

/// The index of the player that a missile of `owner` at `from` locks on to,
/// or `None` where there is no player but the owner.
pub open spec fn target_of(players: Seq<PlayerView>, owner: u64, from: Vec2) -> Option<int> {
    if exists|i: int| is_target(players, owner, from, i) {
        Some(choose|i: int| is_target(players, owner, from, i))
    } else {
        None
    }
}

/// A step of the heading goes toward the target without passing it: it has
/// the sign of the turn left to make and is no larger.
pub open spec fn turns_toward(turn: int, step: int) -> bool {
    (0 <= step <= turn) || (turn <= step <= 0)
}

/// A missile locks on to at most one player.
pub proof fn lemma_target_is_unique(
    players: Seq<PlayerView>,
    owner: u64,
    from: Vec2,
    first: int,
    second: int,
)
    requires
        is_target(players, owner, from, first),
        is_target(players, owner, from, second),
    ensures
        first == second,
        target_of(players, owner, from) == Some(first),
{
}

impl MissileView {
    /// The missile lies in the world, and its motion and lifetime are within
    /// their limits.
    pub open spec fn wf(self) -> bool {
        &&& in_world(self.position)
        &&& 0 <= self.angle < FULL_TURN
        &&& abs(self.angular_velocity as int) <= TURN_RATE_LIMIT
        &&& 0 <= self.speed <= MISSILE_MAX_SPEED
        &&& 0 <= self.lifetime <= LIFETIME_LIMIT
    }

    /// A missile that has just been launched from `position`, wrapped into
    /// the world, along `angle`, at `speed` held between zero and the highest
    /// speed of missiles.
    pub open spec fn launched(
        id: u64,
        position: Vec2,
        angle: i64,
        damage: i16,
        owner: u64,
        speed: i64,
        owner_name: Seq<char>,
    ) -> MissileView {
        MissileView {
            id,
            angular_velocity: 0,
            angle: (angle % FULL_TURN) as i64,
            position: wrapped(position),
            lifetime: 0,
            damage,
            owner,
            owner_name,
            speed: clamp_int(speed as int, 0, MISSILE_MAX_SPEED as int) as i64,
        }
    }

    /// The bearing of the player that the missile locks on to, the short way
    /// round the torus; `None` without a target.
    pub open spec fn target_bearing(self, players: Seq<PlayerView>) -> Option<int> {
        match target_of(players, self.owner, self.position) {
            Some(i) => {
                let to_target = closest_vector(self.position, players[i].position);
                Some(bearing(to_target.x as int, to_target.y as int))
            },
            None => None,
        }
    }

    /// The turn from the missile's heading to the bearing of its target;
    /// zero without a target.
    pub open spec fn steering(self, players: Seq<PlayerView>) -> int {
        match self.target_bearing(players) {
            Some(to_target) => turn_between(self.angle as int, to_target),
            None => 0,
        }
    }

    /// The gain of angular velocity in `delta` microseconds while the target
    /// lies `turn` off the heading: in proportion to the turn.
    pub open spec fn turn_gain(turn: int, delta: int) -> int {
        over_time(MISSILE_KOH_PEY * turn, delta)
    }

    /// The missile after `delta` more microseconds in which its target lay
    /// `turn` off its heading: the angular velocity has gained in proportion
    /// to the turn, the speed has risen toward its maximum, the heading has
    /// turned at the new angular velocity, and the missile has moved on along
    /// the new heading.
    pub open spec fn steered(self, turn: int, delta: int) -> MissileView {
        let angular_velocity = clamp_int(
            self.angular_velocity + Self::turn_gain(turn, delta),
            -TURN_RATE_LIMIT as int,
            TURN_RATE_LIMIT as int,
        );
        let speed = if self.speed + over_time(MISSILE_ACCELERATION as int, delta)
            > MISSILE_MAX_SPEED {
            MISSILE_MAX_SPEED as int
        } else {
            self.speed + over_time(MISSILE_ACCELERATION as int, delta)
        };
        let angle = (self.angle + over_time(angular_velocity, delta)) % (FULL_TURN as int);
        MissileView {
            lifetime: if self.lifetime + delta > LIFETIME_LIMIT {
                LIFETIME_LIMIT
            } else {
                (self.lifetime + delta) as i64
            },
            angular_velocity: angular_velocity as i64,
            speed: speed as i64,
            angle: angle as i64,
            position: advanced(self.position, Vec2::direction(angle, speed), delta),
            ..self
        }
    }

    /// The missile after `delta` more microseconds among the given players.
    pub open spec fn updated(self, players: Seq<PlayerView>, delta: int) -> MissileView {
        self.steered(self.steering(players), delta)
    }

    /// The missile is spent: it has flown for longer than missiles live.
    pub open spec fn is_done(self) -> bool {
        self.lifetime > MISSILE_LIFE_TIME
    }

    /// The steering pushes the angular velocity toward the target: while the
    /// target lies to one side of the heading, the angular velocity gains
    /// nothing toward the other side; it gains nothing without a turn to
    /// make; and the turn to make is never more than half a turn.
    pub proof fn lemma_steers_toward_target(self, players: Seq<PlayerView>, delta: int)
        requires
            self.wf(),
            0 <= delta <= u16::MAX,
        ensures
            -HALF_TURN <= self.steering(players) < HALF_TURN,
            self.steering(players) > 0 ==> Self::turn_gain(self.steering(players), delta) >= 0
                && self.updated(players, delta).angular_velocity >= self.angular_velocity,
            self.steering(players) < 0 ==> Self::turn_gain(self.steering(players), delta) <= 0
                && self.updated(players, delta).angular_velocity <= self.angular_velocity,
            self.steering(players) == 0 ==> self.updated(players, delta).angular_velocity
                == self.angular_velocity,
    {
        lemma_over_time_bound(MISSILE_KOH_PEY * self.steering(players), delta);
    }

    /// A missile whose heading turns toward its target in a tick, without
    /// passing it, ends the tick with its heading no farther from the bearing
    /// that the target had than it began. A missile that turns away from its
    /// target at the start of the tick, or turns so fast that it passes the
    /// bearing, is not covered.
    pub proof fn lemma_missile_closes_in(self, players: Seq<PlayerView>, delta: int)
        requires
            self.wf(),
            0 <= delta <= u16::MAX,
            self.target_bearing(players) is Some,
            turns_toward(
                self.steering(players),
                over_time(self.updated(players, delta).angular_velocity as int, delta),
            ),
        ensures
            abs(
                turn_between(
                    self.updated(players, delta).angle as int,
                    self.target_bearing(players).unwrap(),
                ),
            ) <= abs(self.steering(players)),
    {
    }

    /// While the heading turns toward the target without passing it, the
    /// heading ends the tick no farther from the bearing than it began: where
    /// the turn that the heading makes in the tick has the sign of the turn
    /// left to make and is no larger, the turn left to make shrinks by it.
    pub proof fn lemma_heading_closes_in(heading: int, target_bearing: int, step: int)
        requires
            0 <= heading < FULL_TURN,
            turns_toward(turn_between(heading, target_bearing), step),
        ensures
            turn_between((heading + step) % (FULL_TURN as int), target_bearing) == turn_between(
                heading,
                target_bearing,
            ) - step,
            abs(turn_between((heading + step) % (FULL_TURN as int), target_bearing)) <= abs(
                turn_between(heading, target_bearing),
            ),
    {
    }
}

impl Missile {
    /// A missile that has just been launched, with the given id.
    pub fn with_id(
        id: u64,
        position: Vec2,
        angle: i64,
        damage: i16,
        owner: u64,
        speed: i64,
        owner_name: String,
    ) -> (r: Missile)
        ensures
            r@ == MissileView::launched(id, position, angle, damage, owner, speed, owner_name@),
            r@.wf(),
    {
        Missile {
            id,
            angular_velocity: 0,
            angle: modulo(angle, FULL_TURN),
            position: wrap_around(position),
            lifetime: 0,
            damage,
            owner,
            owner_name,
            speed: clamp(speed, 0, MISSILE_MAX_SPEED),
        }
    }

    /// A missile that has just been launched, with an id drawn at random.
    pub fn new(
        position: Vec2,
        angle: i64,
        damage: i16,
        owner: u64,
        speed: i64,
        owner_name: String,
    ) -> (r: Missile)
        ensures
            r@ == MissileView::launched(r.id, position, angle, damage, owner, speed, owner_name@),
            r.id < u64::MAX,
            r@.wf(),
    {
        let id = random_below(u64::MAX);
        Self::with_id(id, position, angle, damage, owner, speed, owner_name)
    }

    /// Whether the missile is in a valid state.
    pub fn is_valid(&self) -> (r: bool)
        ensures
            r == self@.wf(),
    {
        self.position.is_in_world() && 0 <= self.angle && self.angle < FULL_TURN
            && -TURN_RATE_LIMIT <= self.angular_velocity && self.angular_velocity
            <= TURN_RATE_LIMIT && 0 <= self.speed && self.speed <= MISSILE_MAX_SPEED && 0
            <= self.lifetime && self.lifetime <= LIFETIME_LIMIT
    }

    /// The index of the player that the missile locks on to.
    pub fn find_target(&self, players: &Vec<Player>) -> (r: Option<usize>)
        requires
            self@.wf(),
            players_wf(player_views(players@)),
        ensures
            match r {
                Some(i) => target_of(player_views(players@), self.owner, self.position) == Some(
                    i as int,
                ) && is_target(player_views(players@), self.owner, self.position, i as int),
                None => target_of(player_views(players@), self.owner, self.position) is None,
            },
    {
        let ghost views = player_views(players@);
        let mut best: Option<usize> = None;
        let mut best_distance: i64 = 0;
        let mut i: usize = 0;
        while i < players.len()
            invariant
                i <= players.len(),
                self@.wf(),
                views == player_views(players@),
                players_wf(views),
                match best {
                    Some(b) => is_target_among(views, self.owner, self.position, i as int, b as int)
                        && best_distance == toroidal_distance_squared(
                        self.position,
                        views[b as int].position,
                    ),
                    None => forall|j: int| 0 <= j < i ==> (#[trigger] views[j]).id == self.owner,
                },
            decreases players.len() - i,
        {
            assert(views[i as int] == players@[i as int]@);
            if players[i].id != self.owner {
                let distance = toroidal_distance_sq(self.position, players[i].position);
                let nearer = match best {
                    Some(_) => distance < best_distance,
                    None => true,
                };
                if nearer {
                    best = Some(i);
                    best_distance = distance;
                }
            }
            i += 1;
        }
        proof {
            match best {
                Some(b) => {
                    lemma_target_is_unique(views, self.owner, self.position, b as int, b as int);
                },
                None => {},
            }
        }
        best
    }

    /// Moves the missile on by `delta` microseconds among the given players.
    pub fn update(&mut self, players: &Vec<Player>, delta: u16)
        requires
            old(self)@.wf(),
            players_wf(player_views(players@)),
        ensures
            final(self)@ == old(self)@.updated(player_views(players@), delta as int),
            final(self)@.wf(),
    {
        let turn = match self.find_target(players) {
            Some(i) => {
                let direction_to = closest_vector_to(self.position, players[i].position);
                angle_diff(self.angle, direction_to.angle())
            },
            None => 0,
        };
        self.lifetime = if self.lifetime + delta as i64 > LIFETIME_LIMIT {
            LIFETIME_LIMIT
        } else {
            self.lifetime + delta as i64
        };
        self.angular_velocity = clamp(
            self.angular_velocity + integrate(MISSILE_KOH_PEY * turn, delta),
            -TURN_RATE_LIMIT,
            TURN_RATE_LIMIT,
        );
        let faster = self.speed + integrate(MISSILE_ACCELERATION, delta);
        self.speed = if faster > MISSILE_MAX_SPEED {
            MISSILE_MAX_SPEED
        } else {
            faster
        };
        self.angle = modulo(self.angle + integrate(self.angular_velocity, delta), FULL_TURN);
        let velocity = Vec2::from_direction(self.angle, self.speed);
        self.position = advance(self.position, velocity, delta);
    }

    /// Whether the missile can hit: always.
    pub fn is_armed(&self) -> (r: bool)
        ensures
            r,
    {
        true
    }

    /// Whether the missile is spent.
    pub fn is_done(&self) -> (r: bool)
        ensures
            r == self@.is_done(),
    {
        self.lifetime > MISSILE_LIFE_TIME
    }

    /// The id of the player who launched the missile.
    pub fn get_shooter(&self) -> (r: u64)
        ensures
            r == self.owner,
    {
        self.owner
    }

    /// The name of the player who launched the missile.
    pub fn get_shooter_name(&self) -> (r: String)
        ensures
            r@ == self.owner_name@,
    {
        self.owner_name.clone()
    }

    /// Where the missile is.
    pub fn get_position(&self) -> (r: Vec2)
        ensures
            r == self.position,
    {
        self.position
    }

    /// The damage of a hit by the missile.
    pub fn get_damage(&self) -> (r: i16)
        ensures
            r == self.damage,
    {
        self.damage
    }

    /// The missile's id.
    pub fn get_id(&self) -> (r: u64)
        ensures
            r == self.id,
    {
        self.id
    }
}

} // verus!
