//! Players against players: planes that come too near each other take the
//! damage of a collision, once per grace period.
use vstd::prelude::*;
use crate::constants::{COLLISION_DAMAGE, COLLISION_GRACE_PERIOD, PLANE_SIZE};
use crate::gamestate::{GameState, GameStateView};
use crate::killfeed::{announcement, MessageView};
use crate::math::{in_world, toroidal_distance_sq, toroidal_distance_squared};
use crate::player::{player_views, players_wf, Player, PlayerView};

verus! {

/// Two players collide: they are not the same player, and their planes are
/// nearer to each other, the short way round the torus, than two plane sizes.
pub open spec fn collides(a: PlayerView, b: PlayerView) -> bool {
    a.id != b.id && toroidal_distance_squared(a.position, b.position) < (PLANE_SIZE * 2) * (
    PLANE_SIZE * 2)
}

/// The player at `other` is the first with which the player at `index`
/// collides.
pub open spec fn is_first_collider(players: Seq<PlayerView>, index: int, other: int) -> bool {
    &&& 0 <= other < players.len()
    &&& collides(players[index], players[other])
    &&& forall|j: int| 0 <= j < other ==> !collides(players[index], #[trigger] players[j])
}

/// The index of the first player with which the player at `index` collides;
/// a collision is blamed on that player.
pub open spec fn first_collider(players: Seq<PlayerView>, index: int) -> Option<int> {
    if exists|j: int| is_first_collider(players, index, j) {
        Some(choose|j: int| is_first_collider(players, index, j))
    } else {
        None
    }
}

/// The player suffers a collision in this tick: it collides with another
/// player, and its grace period is over once `delta` more microseconds of
/// it have passed.
pub open spec fn crashes(players: Seq<PlayerView>, index: int, delta: int) -> bool {
    first_collider(players, index) is Some && players[index].cooled(delta).time_to_next_collision
        == 0
}

/// The player at `index` after the collisions' tick: its grace period has
/// run on; if it suffers a collision, it has taken the damage of one and its
/// grace period starts again.
pub open spec fn crashed(players: Seq<PlayerView>, index: int, delta: int) -> PlayerView {
    let cooled = players[index].cooled(delta);
    if crashes(players, index, delta) {
        PlayerView {
            time_to_next_collision: COLLISION_GRACE_PERIOD,
            ..cooled.damaged(COLLISION_DAMAGE as int)
        }
    } else {
        cooled
    }
}

/// The text that announces a kill by collision.
pub open spec fn collision_kill_message(attacker: Seq<char>, victim: Seq<char>) -> Seq<char> {
    attacker + " killed "@ + victim + " by collision."@
}

/// The announcements of the kills by collision among the first `count`
/// players: one for each player that suffers a collision and is without
/// health afterwards.
pub open spec fn collision_kills(players: Seq<PlayerView>, count: int, delta: int) -> Seq<
    MessageView,
>
    decreases count,
{
    if count <= 0 {
        Seq::empty()
    } else {
        let before = collision_kills(players, count - 1, delta);
        let index = count - 1;
        if crashes(players, index, delta) && crashed(players, index, delta).health == 0 {
            before.push(
                announcement(
                    collision_kill_message(
                        players[first_collider(players, index).unwrap()].name,
                        players[index].name,
                    ),
                ),
            )
        } else {
            before
        }
    }
}

/// The ids of those of the first `count` players that a collision has
/// damaged: those that suffer one while not invincible.
pub open spec fn collision_hits(players: Seq<PlayerView>, count: int, delta: int) -> Seq<u64>
    decreases count,
{
    if count <= 0 {
        Seq::empty()
    } else {
        let before = collision_hits(players, count - 1, delta);
        let index = count - 1;
        if crashes(players, index, delta) && !players[index].invincible() {
            before.push(players[index].id)
        } else {
            before
        }
    }
}

/// A player collides first with at most one other.
pub proof fn lemma_first_collider_is_unique(players: Seq<PlayerView>, index: int, other: int)
    requires
        is_first_collider(players, index, other),
    ensures
        first_collider(players, index) == Some(other),
{
}

/// The index of the first player with which the player at `index`
/// collides.
fn find_collider(players: &Vec<Player>, index: usize) -> (r: Option<usize>)
    requires
        index < players.len(),
        forall|j: int| 0 <= j < players.len() ==> in_world((#[trigger] players@[j]).position),
    ensures
        match r {
            Some(other) => first_collider(player_views(players@), index as int) == Some(
                other as int,
            ) && other < players.len(),
            None => first_collider(player_views(players@), index as int) is None,
        },
{
    let ghost views = player_views(players@);
    let hit_radius = PLANE_SIZE * 2;
    let reach = hit_radius * hit_radius;
    let mut j: usize = 0;
    while j < players.len()
        invariant
            j <= players.len(),
            index < players.len(),
            views == player_views(players@),
            reach == (PLANE_SIZE * 2) * (PLANE_SIZE * 2),
            forall|k: int| 0 <= k < players.len() ==> in_world((#[trigger] players@[k]).position),
            forall|k: int| 0 <= k < j ==> !collides(views[index as int], #[trigger] views[k]),
        decreases players.len() - j,
    {
        let distance = toroidal_distance_sq(players[index].position, players[j].position);
        if players[index].id != players[j].id && distance < reach {
            proof {
                lemma_first_collider_is_unique(views, index as int, j as int);
            }
            return Some(j);
        }
        j += 1;
    }
    None
}

impl GameStateView {
    /// The world after the collisions' tick: every player's grace period has
    /// run on, the players that suffer a collision have taken its damage,
    /// and the kills are announced, each blamed on the first player with
    /// which the victim collides.
    pub open spec fn with_collisions_handled(self, delta: int) -> GameStateView {
        GameStateView {
            players: Seq::new(self.players.len(), |i: int| crashed(self.players, i, delta)),
            killfeed: self.killfeed + collision_kills(
                self.players,
                self.players.len() as int,
                delta,
            ),
            ..self
        }
    }
}

/// Whether two players collide does not change while players are damaged:
/// it depends on their ids and positions alone.
pub proof fn lemma_colliders_stay(before: Seq<PlayerView>, now: Seq<PlayerView>, index: int)
    requires
        before.len() == now.len(),
        0 <= index < before.len(),
        forall|j: int|
            0 <= j < before.len() ==> (#[trigger] now[j]).id == before[j].id && now[j].position
                == before[j].position,
    ensures
        first_collider(now, index) == first_collider(before, index),
{
    if exists|j: int| is_first_collider(before, index, j) {
        let other = choose|j: int| is_first_collider(before, index, j);
        assert(is_first_collider(now, index, other));
    } else {
        assert forall|j: int| !is_first_collider(now, index, j) by {
            if is_first_collider(now, index, j) {
                assert(is_first_collider(before, index, j)) by {
                    assert forall|k: int| 0 <= k < j implies !collides(
                        before[index],
                        #[trigger] before[k],
                    ) by {
                        assert(!collides(now[index], now[k]));
                    }
                }
            }
        }
    }
}

impl GameState {
    /// Runs every player's grace period on by `delta` microseconds and lets
    /// the players that collide after their grace period take the damage of
    /// a collision. Returns the ids of the players damaged.
    pub fn handle_player_collisions(&mut self, delta: u16) -> (r: Vec<u64>)
        requires
            old(self)@.wf(),
        ensures
            final(self)@ == old(self)@.with_collisions_handled(delta as int),
            final(self)@.wf(),
            r@ == collision_hits(old(self)@.players, old(self)@.players.len() as int, delta as int),
    {
        let ghost before = self@;
        let mut damaged_players: Vec<u64> = Vec::new();
        let mut i: usize = 0;
        while i < self.players.len()
            invariant
                i <= self.players.len(),
                before.wf(),
                self.players@.len() == before.players.len(),
                self@ == (GameStateView {
                    players: self@.players,
                    killfeed: self@.killfeed,
                    ..before
                }),
                forall|j: int|
                    0 <= j < i ==> (#[trigger] self@.players[j]) == crashed(
                        before.players,
                        j,
                        delta as int,
                    ),
                forall|j: int| i <= j < self.players.len() ==> (#[trigger] self@.players[j])
                    == before.players[j],
                forall|j: int|
                    0 <= j < self.players.len() ==> (#[trigger] self@.players[j]).id
                        == before.players[j].id && self@.players[j].position
                        == before.players[j].position && self@.players[j].name
                        == before.players[j].name,
                players_wf(self@.players),
                self@.killfeed == before.killfeed + collision_kills(
                    before.players,
                    i as int,
                    delta as int,
                ),
                damaged_players@ == collision_hits(before.players, i as int, delta as int),
            decreases self.players.len() - i,
        {
            let ghost views = self@.players;
            proof {
                assert(views[i as int] == self.players@[i as int]@);
                assert forall|j: int| 0 <= j < self.players.len() implies in_world(
                    (#[trigger] self.players@[j]).position,
                ) by {
                    assert(views[j] == self.players@[j]@);
                }
                lemma_colliders_stay(before.players, views, i as int);
            }
            let collider = find_collider(&self.players, i);
            self.players[i].update_collision_timer(delta);
            match collider {
                Some(other) => {
                    if self.players[i].time_to_next_collision == 0 {
                        let attacker = self.players[other].name.clone();
                        let took_damage = self.players[i].damage_player(COLLISION_DAMAGE);
                        if took_damage {
                            damaged_players.push(self.players[i].id);
                        }
                        if self.players[i].has_died() {
                            let mut msg = attacker;
                            msg.append(" killed ");
                            msg.append(self.players[i].name.as_str());
                            msg.append(" by collision.");
                            self.killfeed.add_message(msg.as_str());
                        }
                        self.players[i].time_to_next_collision = COLLISION_GRACE_PERIOD;
                    }
                },
                None => {},
            }
            proof {
                assert forall|j: int| 0 <= j < i + 1 implies (#[trigger] self@.players[j])
                    == crashed(before.players, j, delta as int) by {
                    if j < i {
                        assert(self@.players[j] == views[j]);
                    }
                }
                assert forall|j: int| i + 1 <= j < self.players.len() implies (
                #[trigger] self@.players[j]) == before.players[j] by {
                    assert(self@.players[j] == views[j]);
                }
            }
            i += 1;
        }
        assert(self@.players =~= before.with_collisions_handled(delta as int).players);
        damaged_players
    }
}

} // verus!
