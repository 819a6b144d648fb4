//! The world and one tick of its simulation.
use vstd::prelude::*;
use crate::constants::{
    HURRICANE_DRAW_RANGE,
    HURRICANE_MOVE_SPEED,
    HURRICANE_SPAWN_RATE,
    POWERUP_AMOUNT,
    WORLD_SIZE,
};
use crate::debug::DebugLine;
use crate::hurricane::Hurricane;
use crate::killfeed::{aged_feed, announcement, KillFeed, MessageView};
use crate::math::{in_world, vec2, Vec2};
use crate::player::{player_views, players_wf, Player, PlayerView};
use crate::powerups::PowerUp;
use crate::projectiles::{
    hurricane_wf,
    LaserBeam,
    LaserBeamView,
    ProjectileKind,
    ProjectileView,
};
use crate::random::random_below;
use self::beams::firing_position;
use self::collisions::collision_hits;
use self::pickups::{pickup_events, refilled_count};
use self::strikes::bullet_hits;

pub mod beams;
pub mod collisions;
pub mod pickups;
pub mod strikes;

verus! {

/// The world: everything that the simulation moves.
#[derive(Clone, Debug)]
pub struct GameState {
    pub players: Vec<Player>,
    pub projectiles: Vec<ProjectileKind>,
    pub powerups: Vec<PowerUp>,
    pub lasers: Vec<LaserBeam>,
    pub killfeed: KillFeed,
    pub hurricane: Option<Hurricane>,
    pub debug_lines: Vec<DebugLine>,
}

/// What a `GameState` holds, each collection as the sequence of its items'
/// views.
pub struct GameStateView {
    pub players: Seq<PlayerView>,
    pub projectiles: Seq<ProjectileView>,
    pub powerups: Seq<PowerUp>,
    pub lasers: Seq<LaserBeamView>,
    pub killfeed: Seq<MessageView>,
    pub hurricane: Option<Hurricane>,
    pub debug_lines: Seq<DebugLine>,
}

/// The views of the projectiles, in their order.
pub open spec fn projectile_views(projectiles: Seq<ProjectileKind>) -> Seq<ProjectileView> {
    projectiles.map_values(|p: ProjectileKind| p@)
}

/// The views of the beams, in their order.
pub open spec fn laser_views(lasers: Seq<LaserBeam>) -> Seq<LaserBeamView> {
    lasers.map_values(|l: LaserBeam| l@)
}

/// Every one of the projectiles is in a valid state.
pub open spec fn projectiles_wf(projectiles: Seq<ProjectileView>) -> bool {
    forall|i: int| 0 <= i < projectiles.len() ==> (#[trigger] projectiles[i]).wf()
}

/// Every one of the beams is in a valid state.
pub open spec fn lasers_wf(lasers: Seq<LaserBeamView>) -> bool {
    forall|i: int| 0 <= i < lasers.len() ==> (#[trigger] lasers[i]).wf()
}

/// Every one of the powerups lies in the world.
pub open spec fn powerups_in_world(powerups: Seq<PowerUp>) -> bool {
    forall|i: int| 0 <= i < powerups.len() ==> in_world((#[trigger] powerups[i]).position)
}

impl View for GameState {
    type V = GameStateView;

    open spec fn view(&self) -> GameStateView {
        GameStateView {
            players: player_views(self.players@),
            projectiles: projectile_views(self.projectiles@),
            powerups: self.powerups@,
            lasers: laser_views(self.lasers@),
            killfeed: self.killfeed@,
            hurricane: self.hurricane,
            debug_lines: self.debug_lines@,
        }
    }
}

/// The announcement that a player has joined.
pub open spec fn join_message(name: Seq<char>) -> Seq<char> {
    name + " has joined the game."@
}

/// The hurricane appears: the draw, out of `HURRICANE_DRAW_RANGE`, is below
/// the spawn rate times the tick length.
pub open spec fn hurricane_appears(draw: int, delta: int) -> bool {
    draw < HURRICANE_SPAWN_RATE * delta
}

impl GameStateView {
    /// Every item of the world is in a valid state.
    pub open spec fn wf(self) -> bool {
        &&& players_wf(self.players)
        &&& projectiles_wf(self.projectiles)
        &&& powerups_in_world(self.powerups)
        &&& lasers_wf(self.lasers)
        &&& hurricane_wf(self.hurricane)
    }

    /// The empty world.
    pub open spec fn empty() -> GameStateView {
        GameStateView {
            players: Seq::empty(),
            projectiles: Seq::empty(),
            powerups: Seq::empty(),
            lasers: Seq::empty(),
            killfeed: Seq::empty(),
            hurricane: None,
            debug_lines: Seq::empty(),
        }
    }

    /// The index of the first player with the given id, if there is one.
    pub open spec fn index_of_player(self, id: u64) -> Option<int> {
        if exists|i: int| self.is_first_with_id(id, i) {
            Some(choose|i: int| self.is_first_with_id(id, i))
        } else {
            None
        }
    }

    /// The player at `index` has the given id, and none before it has.
    pub open spec fn is_first_with_id(self, id: u64, index: int) -> bool {
        &&& 0 <= index < self.players.len()
        &&& self.players[index].id == id
        &&& forall|j: int| 0 <= j < index ==> (#[trigger] self.players[j]).id != id
    }

    /// The world after the hurricane's tick: the hurricane has moved on, and
    /// is gone once it has died.
    pub open spec fn with_hurricane_updated(self, delta: int) -> GameStateView {
        GameStateView {
            hurricane: match self.hurricane {
                Some(h) => if h.updated(delta).status is Dead {
                    None
                } else {
                    Some(h.updated(delta))
                },
                None => None,
            },
            ..self
        }
    }

    /// `after` is this world after the chance for a hurricane to appear in a
    /// tick of `delta` microseconds: it is what some draw below
    /// `HURRICANE_DRAW_RANGE`, some place in the world and some drift below
    /// `HURRICANE_MOVE_SPEED` on each axis make of this world.
    pub open spec fn may_spawn_to(self, delta: int, after: GameStateView) -> bool {
        exists|draw: int, position: Vec2, velocity: Vec2|
            0 <= draw < HURRICANE_DRAW_RANGE && in_world(position) && 0 <= velocity.x
                < HURRICANE_MOVE_SPEED && 0 <= velocity.y < HURRICANE_MOVE_SPEED && after
                == #[trigger] self.with_hurricane_spawned(draw, position, velocity, delta)
    }

    /// The world after the chance for a hurricane to appear: into an empty
    /// sky a hurricane comes, at the given place and with the given drift,
    /// when the given draw says so.
    pub open spec fn with_hurricane_spawned(
        self,
        draw: int,
        position: Vec2,
        velocity: Vec2,
        delta: int,
    ) -> GameStateView {
        if self.hurricane is None && hurricane_appears(draw, delta) {
            GameStateView { hurricane: Some(Hurricane::created(position, velocity)), ..self }
        } else {
            self
        }
    }
}

impl GameState {
    /// The empty world.
    pub fn new() -> (r: GameState)
        ensures
            r@ == GameStateView::empty(),
            r@.wf(),
    {
        let r = GameState {
            players: Vec::new(),
            projectiles: Vec::new(),
            powerups: Vec::new(),
            lasers: Vec::new(),
            killfeed: KillFeed::new(),
            hurricane: None,
            debug_lines: Vec::new(),
        };
        assert(r@.players =~= Seq::empty());
        assert(r@.projectiles =~= Seq::empty());
        assert(r@.lasers =~= Seq::empty());
        r
    }

    /// Whether every item of the world is in a valid state.
    pub fn is_valid(&self) -> (r: bool)
        ensures
            r == self@.wf(),
    {
        let mut i: usize = 0;
        while i < self.players.len()
            invariant
                i <= self.players.len(),
                forall|j: int| 0 <= j < i ==> (#[trigger] self@.players[j]).wf(),
            decreases self.players.len() - i,
        {
            assert(self@.players[i as int] == self.players@[i as int]@);
            if !self.players[i].is_valid() {
                return false;
            }
            i += 1;
        }
        let mut i: usize = 0;
        while i < self.projectiles.len()
            invariant
                i <= self.projectiles.len(),
                forall|j: int| 0 <= j < i ==> (#[trigger] self@.projectiles[j]).wf(),
            decreases self.projectiles.len() - i,
        {
            assert(self@.projectiles[i as int] == self.projectiles@[i as int]@);
            if !self.projectiles[i].is_valid() {
                return false;
            }
            i += 1;
        }
        let mut i: usize = 0;
        while i < self.powerups.len()
            invariant
                i <= self.powerups.len(),
                forall|j: int| 0 <= j < i ==> in_world((#[trigger] self@.powerups[j]).position),
            decreases self.powerups.len() - i,
        {
            if !self.powerups[i].position.is_in_world() {
                return false;
            }
            i += 1;
        }
        let mut i: usize = 0;
        while i < self.lasers.len()
            invariant
                i <= self.lasers.len(),
                forall|j: int| 0 <= j < i ==> (#[trigger] self@.lasers[j]).wf(),
            decreases self.lasers.len() - i,
        {
            assert(self@.lasers[i as int] == self.lasers@[i as int]@);
            if !self.lasers[i].is_valid() {
                return false;
            }
            i += 1;
        }
        match &self.hurricane {
            Some(h) => h.is_valid(),
            None => true,
        }
    }

    /// Lets a hurricane appear in an empty sky when `draw`, a number below
    /// `HURRICANE_DRAW_RANGE`, says so: at `position` and drifting with
    /// `velocity`.
    pub fn spawn_hurricane_on(&mut self, draw: u64, position: Vec2, velocity: Vec2, delta: u16)
        requires
            old(self)@.wf(),
        ensures
            final(self)@ == old(self)@.with_hurricane_spawned(
                draw as int,
                position,
                velocity,
                delta as int,
            ),
            final(self)@.wf(),
    {
        if self.hurricane.is_none() {
            if draw < HURRICANE_SPAWN_RATE * (delta as u64) {
                self.hurricane = Some(Hurricane::new(position, velocity));
            }
        }
    }

    /// Gives a hurricane the chance to appear in an empty sky: it draws a
    /// number below `HURRICANE_DRAW_RANGE`, a place in the world and a drift
    /// below `HURRICANE_MOVE_SPEED` on each axis, and lets the hurricane
    /// appear as `spawn_hurricane_on` does for them. So the chance is in
    /// proportion to the tick length, and a tick of no length spawns nothing.
    pub fn maybe_spawn_hurricane(&mut self, delta: u16)
        requires
            old(self)@.wf(),
        ensures
            final(self)@.wf(),
            old(self)@.may_spawn_to(delta as int, final(self)@),
            old(self)@.hurricane is Some || delta == 0 ==> final(self)@ == old(self)@,
    {
        let ghost before = self@;
        if self.hurricane.is_none() {
            let draw = random_below(HURRICANE_DRAW_RANGE);
            let xv = random_below(HURRICANE_MOVE_SPEED as u64) as i64;
            let yv = random_below(HURRICANE_MOVE_SPEED as u64) as i64;
            let xp = random_below(WORLD_SIZE as u64) as i64;
            let yp = random_below(WORLD_SIZE as u64) as i64;
            let vel = vec2(xv, yv);
            let pos = vec2(xp, yp);
            self.spawn_hurricane_on(draw, pos, vel, delta);
            assert(self@ == before.with_hurricane_spawned(draw as int, pos, vel, delta as int));
        } else {
            let ghost origin = Vec2 { x: 0, y: 0 };
            assert(self@ == before.with_hurricane_spawned(0, origin, origin, delta as int));
        }
    }

    /// Moves the hurricane on by `delta` microseconds and removes it once it
    /// has died.
    pub fn update_hurricane(&mut self, delta: u16)
        requires
            old(self)@.wf(),
        ensures
            final(self)@ == old(self)@.with_hurricane_updated(delta as int),
            final(self)@.wf(),
    {
        match self.hurricane {
            Some(mut hurricane) => {
                hurricane.update(delta);
                if hurricane.is_dead() {
                    self.hurricane = None;
                } else {
                    self.hurricane = Some(hurricane);
                }
            },
            None => {},
        }
    }

    /// Adds a player to the world and announces it.
    pub fn add_player(&mut self, player: Player)
        requires
            old(self)@.wf(),
            player@.wf(),
        ensures
            final(self)@ == (GameStateView {
                players: old(self)@.players.push(player@),
                killfeed: old(self)@.killfeed.push(announcement(join_message(player@.name))),
                ..old(self)@
            }),
            final(self)@.wf(),
    {
        let mut msg = player.name.clone();
        msg.append(" has joined the game.");
        proof {
            self.players@.lemma_push_map_commute(|p: Player| p@, player);
        }
        self.players.push(player);
        self.killfeed.add_message(msg.as_str());
    }

    /// The index of the first player with the given id.
    pub fn player_index(&self, id: u64) -> (r: Option<usize>)
        ensures
            match r {
                Some(i) => self@.index_of_player(id) == Some(i as int) && i < self.players.len()
                    && self.players@[i as int].id == id,
                None => self@.index_of_player(id) is None,
            },
    {
        let mut i: usize = 0;
        while i < self.players.len()
            invariant
                i <= self.players.len(),
                forall|j: int| 0 <= j < i ==> (#[trigger] self@.players[j]).id != id,
            decreases self.players.len() - i,
        {
            if self.players[i].id == id {
                proof {
                    assert(self@.is_first_with_id(id, i as int));
                }
                return Some(i);
            }
            i += 1;
        }
        None
    }

    /// The first player with the given id.
    pub fn get_player_by_id(&self, id: u64) -> (r: Option<&Player>)
        ensures
            match r {
                Some(player) => self@.index_of_player(id) is Some && player@
                    == self@.players[self@.index_of_player(id).unwrap()] && player.id == id,
                None => self@.index_of_player(id) is None,
            },
    {
        match self.player_index(id) {
            Some(i) => {
                Some(&self.players[i])
            },
            None => None,
        }
    }

    /// Replaces the debug lines of the snapshot by those collected in this
    /// tick.
    pub fn update_debug_lines(&mut self, debug_lines: Vec<DebugLine>)
        ensures
            final(self)@ == (GameStateView { debug_lines: debug_lines@, ..old(self)@ }),
    {
        self.debug_lines = debug_lines;
    }

    /// Adds a projectile to the world.
    pub fn add_bullet(&mut self, projectile: ProjectileKind)
        requires
            old(self)@.wf(),
            projectile@.wf(),
        ensures
            final(self)@ == (GameStateView {
                projectiles: old(self)@.projectiles.push(projectile@),
                ..old(self)@
            }),
            final(self)@.wf(),
    {
        proof {
            self.projectiles@.lemma_push_map_commute(|p: ProjectileKind| p@, projectile);
        }
        self.projectiles.push(projectile);
    }
}

/// The views of the items, in their order.
pub open spec fn views_of<T: View>(items: Seq<T>) -> Seq<T::V> {
    items.map_values(|item: T| item@)
}

/// Removes the marked items: those that `keep` does not hold of.
pub(crate) fn drop_marked<T: View>(
    items: &mut Vec<T>,
    marked: &Vec<bool>,
    Ghost(keep): Ghost<spec_fn(T::V) -> bool>,
)
    requires
        marked@.len() == old(items)@.len(),
        forall|j: int|
            0 <= j < marked@.len() ==> #[trigger] marked@[j] == !keep(views_of(old(items)@)[j]),
    ensures
        views_of(final(items)@) == views_of(old(items)@).filter(keep),
{
    let ghost before = views_of(items@);
    let mut i: usize = items.len();
    while i > 0
        invariant
            i <= items@.len(),
            i <= before.len(),
            marked@.len() == before.len(),
            forall|j: int| 0 <= j < marked@.len() ==> #[trigger] marked@[j] == !keep(before[j]),
            views_of(items@).take(i as int) == before.take(i as int),
            views_of(items@).skip(i as int) == before.skip(i as int).filter(keep),
        decreases i,
    {
        let ghost views = views_of(items@);
        let ghost x = before[i - 1];
        proof {
            assert(views.take(i as int)[i - 1] == before.take(i as int)[i - 1]);
            assert(before.skip(i - 1) =~= seq![x] + before.skip(i as int));
            before.skip(i as int).lemma_filter_prepend(x, keep);
        }
        i -= 1;
        if marked[i] {
            items.remove(i);
        }
    }
    proof {
        assert(before.skip(0) =~= before);
    }
}

impl GameStateView {
    /// The tick may start from `start`: from this world as it is, or, where
    /// its sky is empty, from this world with a new hurricane.
    pub open spec fn may_start_as(self, start: GameStateView) -> bool {
        start == self || (self.hurricane is None && exists|position: Vec2, velocity: Vec2|
            start == (GameStateView {
                hurricane: Some(#[trigger] Hurricane::created(position, velocity)),
                ..self
            }))
    }

    /// The world after the hurricane's tick and the pickups.
    pub open spec fn after_pickups(self, delta: int) -> GameStateView {
        self.with_hurricane_updated(delta).with_pickups()
    }

    /// The world after the projectiles' tick, which follows the pickups.
    pub open spec fn after_bullets(self, delta: int) -> GameStateView {
        self.after_pickups(delta).with_bullets_handled(delta)
    }

    /// The world after the beams' tick, which follows the projectiles'.
    pub open spec fn after_lasers(self, delta: int) -> GameStateView {
        self.after_bullets(delta).with_lasers_handled(delta)
    }

    /// The world after one tick of `delta` microseconds, before new powerups
    /// are laid out: the hurricane has moved, powerups have been picked up,
    /// projectiles and beams have moved and done their damage, colliding
    /// players have taken theirs, and the kill feed has aged.
    pub open spec fn simulated(self, delta: int) -> GameStateView {
        let collided = self.after_lasers(delta).with_collisions_handled(delta);
        GameStateView { killfeed: aged_feed(collided.killfeed, delta), ..collided }
    }

    /// The ids of the players hit in the tick: those struck by projectiles,
    /// then those damaged by collisions.
    pub open spec fn tick_hits(self, delta: int) -> Seq<u64> {
        bullet_hits(self.after_pickups(delta).players, self.after_pickups(delta).in_flight(delta))
            + collision_hits(
            self.after_lasers(delta).players,
            self.after_lasers(delta).players.len() as int,
            delta,
        )
    }

    /// The pickups of the tick.
    pub open spec fn tick_pickups(self, delta: int) -> Seq<(u64, Vec2)> {
        pickup_events(
            self.with_hurricane_updated(delta).players,
            self.with_hurricane_updated(delta).powerups,
        )
    }

    /// The places from which beams are fired in the tick.
    pub open spec fn tick_laser_positions(self, delta: int) -> Seq<Vec2> {
        self.after_bullets(delta).players.filter_map(|p: PlayerView| firing_position(p))
    }

    /// One tick that starts from this world ends in `after`: `after` is the
    /// simulated world with new powerups laid out behind those that are
    /// left, so that there are at least `POWERUP_AMOUNT`.
    pub open spec fn ticks_to(self, delta: int, after: GameStateView) -> bool {
        let left = self.simulated(delta).powerups;
        &&& after == (GameStateView { powerups: after.powerups, ..self.simulated(delta) })
        &&& after.powerups.len() == refilled_count(left.len())
        &&& after.powerups.take(left.len() as int) == left
    }
}

impl GameState {
    /// Runs one tick of `delta` microseconds: a hurricane may appear; the
    /// hurricane moves; powerups are picked up and laid out; projectiles and
    /// beams move and do their damage; colliding players take theirs; the
    /// kill feed ages. Returns the ids of the players hit, the pickups, and
    /// the places from which beams were fired.
    pub fn update(&mut self, delta: u16) -> (r: (Vec<u64>, Vec<(u64, Vec2)>, Vec<Vec2>))
        requires
            old(self)@.wf(),
        ensures
            final(self)@.wf(),
            exists|start: GameStateView| #[trigger]
                old(self)@.may_start_as(start) && start.ticks_to(delta as int, final(self)@)
                    && r.0@ == start.tick_hits(delta as int) && r.1@ == start.tick_pickups(
                    delta as int,
                ) && r.2@ == start.tick_laser_positions(delta as int),
    {
        let ghost before = self@;
        self.maybe_spawn_hurricane(delta);
        let ghost start = self@;
        assert(before.may_start_as(start));
        self.update_hurricane(delta);
        let hit_powerup_positions = self.handle_powerups();
        let mut hit_players = self.handle_bullets(delta);
        let fired_laser_positions = self.handle_lasers(delta);
        let mut collided = self.handle_player_collisions(delta);
        hit_players.append(&mut collided);
        self.killfeed.manage_killfeed(delta);
        (hit_players, hit_powerup_positions, fired_laser_positions)
    }
}

/// The world never runs short of powerups: after the pickups of a tick there
/// are at least `POWERUP_AMOUNT` of them, and those that were left are all
/// still there, in their order.
pub proof fn lemma_powerups_are_refilled(start: GameStateView, delta: int, after: GameStateView)
    requires
        start.ticks_to(delta, after),
    ensures
        after.powerups.len() >= POWERUP_AMOUNT,
        forall|i: int|
            0 <= i < start.simulated(delta).powerups.len() ==> after.powerups[i] == (
            #[trigger] start.simulated(delta).powerups[i]),
{
}

} // verus!
