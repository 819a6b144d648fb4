//! Powerups in the world: players pick up those within reach, and new ones
//! are laid out while there are too few.
use vstd::prelude::*;
use crate::constants::{PLANE_SIZE, POWERUP_AMOUNT, POWERUP_RADIUS, WORLD_SIZE};
use crate::gamestate::{powerups_in_world, GameState, GameStateView};
use crate::math::{in_world, toroidal_distance_sq, toroidal_distance_squared, vec2, Vec2};
use crate::player::{players_wf, Player, PlayerView};
use crate::powerups::{
    lemma_cumulative_likelihoods,
    selected_kind,
    total_likelihood,
    PowerUp,
    PowerUpKind,
    KIND_COUNT,
};
use crate::random::random_below;

verus! {

/// The powerup lies within reach of a plane at `position`: nearer, the short
/// way round the torus, than the sizes of the plane and the powerup together.
pub open spec fn in_reach(position: Vec2, powerup: PowerUp) -> bool {
    toroidal_distance_squared(powerup.position, position) < (PLANE_SIZE + POWERUP_RADIUS) * (
    PLANE_SIZE + POWERUP_RADIUS)
}

/// Of the powerups, those that the player finds within reach.
pub open spec fn found_by(player: PlayerView, powerups: Seq<PowerUp>) -> Seq<PowerUp> {
    powerups.filter(|p: PowerUp| in_reach(player.position, p))
}

/// Of the powerups, those that the player leaves: the ones out of reach.
pub open spec fn left_by(player: PlayerView, powerups: Seq<PowerUp>) -> Seq<PowerUp> {
    powerups.filter(|p: PowerUp| !in_reach(player.position, p))
}

/// The player after picking up the powerups found, one after the other.
pub open spec fn collecting(player: PlayerView, found: Seq<PowerUp>) -> PlayerView
    decreases found.len(),
{
    if found.len() == 0 {
        player
    } else {
        collecting(player, found.drop_last()).picked_up(found.last().kind)
    }
}

/// What is left of the powerups after each of the players, in their order,
/// has picked up those within reach.
pub open spec fn powerups_left(players: Seq<PlayerView>, powerups: Seq<PowerUp>) -> Seq<PowerUp>
    decreases players.len(),
{
    if players.len() == 0 {
        powerups
    } else {
        left_by(players.last(), powerups_left(players.drop_last(), powerups))
    }
}

/// The player at `index` after the pickups: it has picked up what it found
/// among the powerups that the players before it had left.
pub open spec fn player_after_pickups(
    players: Seq<PlayerView>,
    powerups: Seq<PowerUp>,
    index: int,
) -> PlayerView {
    collecting(
        players[index],
        found_by(players[index], powerups_left(players.take(index), powerups)),
    )
}

/// The pickups, in the order in which they happen: for each player in turn,
/// its id and position once for each powerup that it picks up.
pub open spec fn pickup_events(players: Seq<PlayerView>, powerups: Seq<PowerUp>) -> Seq<
    (u64, Vec2),
>
    decreases players.len(),
{
    if players.len() == 0 {
        Seq::empty()
    } else {
        let last = players.last();
        let before = players.drop_last();
        pickup_events(before, powerups) + Seq::new(
            found_by(last, powerups_left(before, powerups)).len(),
            |k: int| (last.id, last.position),
        )
    }
}

/// The number of powerups after new ones have been laid out behind `left`
/// of them: new ones are laid out only while there are fewer than
/// `POWERUP_AMOUNT`.
pub open spec fn refilled_count(left: nat) -> nat {
    if left >= POWERUP_AMOUNT {
        left
    } else {
        POWERUP_AMOUNT as nat
    }
}

/// Picking up powerups keeps a player valid and leaves it where it is.
pub proof fn lemma_collecting(player: PlayerView, found: Seq<PowerUp>)
    requires
        player.wf(),
    ensures
        collecting(player, found).wf(),
        collecting(player, found).position == player.position,
        collecting(player, found).id == player.id,
        collecting(player, found).name == player.name,
    decreases found.len(),
{
    if found.len() > 0 {
        lemma_collecting(player, found.drop_last());
        collecting(player, found.drop_last()).lemma_applied_wf(found.last().kind);
    }
}

/// What the players leave of powerups that lie in the world lies in the
/// world, and is no more than there was.
pub proof fn lemma_powerups_left(players: Seq<PlayerView>, powerups: Seq<PowerUp>)
    requires
        powerups_in_world(powerups),
    ensures
        powerups_in_world(powerups_left(players, powerups)),
        powerups_left(players, powerups).len() <= powerups.len(),
    decreases players.len(),
{
    if players.len() > 0 {
        let before = powerups_left(players.drop_last(), powerups);
        lemma_powerups_left(players.drop_last(), powerups);
        let pred = |p: PowerUp| !in_reach(players.last().position, p);
        let left = before.filter(pred);
        assert forall|i: int| 0 <= i < left.len() implies in_world(
            (#[trigger] left[i]).position,
        ) by {
            before.lemma_filter_contains_rev(pred, left[i]);
        }
    }
}

/// Lets the player pick up those of the powerups that lie within reach;
/// returns the others and notes each pickup in `events`.
fn pick_up_in_reach(
    player: &mut Player,
    powerups: &Vec<PowerUp>,
    events: &mut Vec<(u64, Vec2)>,
) -> (left: Vec<PowerUp>)
    requires
        old(player)@.wf(),
        powerups_in_world(powerups@),
    ensures
        final(player)@ == collecting(old(player)@, found_by(old(player)@, powerups@)),
        final(player)@.wf(),
        left@ == left_by(old(player)@, powerups@),
        final(events)@ == old(events)@ + Seq::new(
            found_by(old(player)@, powerups@).len(),
            |k: int| (old(player).id, old(player).position),
        ),
{
    let ghost start = player@;
    let ghost noted = events@;
    let ghost near = |p: PowerUp| in_reach(start.position, p);
    let ghost far = |p: PowerUp| !in_reach(start.position, p);
    let hit_radius = PLANE_SIZE + POWERUP_RADIUS;
    let reach = hit_radius * hit_radius;
    let mut left: Vec<PowerUp> = Vec::new();
    let mut i: usize = 0;
    while i < powerups.len()
        invariant
            i <= powerups.len(),
            start.wf(),
            powerups_in_world(powerups@),
            reach == (PLANE_SIZE + POWERUP_RADIUS) * (PLANE_SIZE + POWERUP_RADIUS),
            near == |p: PowerUp| in_reach(start.position, p),
            far == |p: PowerUp| !in_reach(start.position, p),
            player@ == collecting(start, powerups@.take(i as int).filter(near)),
            player@.wf(),
            player@.position == start.position,
            player@.id == start.id,
            left@ == powerups@.take(i as int).filter(far),
            events@ == noted + Seq::new(
                powerups@.take(i as int).filter(near).len(),
                |k: int| (start.id, start.position),
            ),
        decreases powerups.len() - i,
    {
        let powerup = powerups[i];
        let ghost seen = powerups@.take(i as int);
        proof {
            assert(powerups@.take(i as int + 1) =~= seen.push(powerup));
            seen.lemma_filter_push(powerup, near);
            seen.lemma_filter_push(powerup, far);
        }
        if toroidal_distance_sq(powerup.position, player.position) < reach {
            proof {
                let found = seen.filter(near).push(powerup);
                assert(found.drop_last() =~= seen.filter(near));
            }
            player.add_powerup(powerup.kind);
            events.push((player.id, player.position));
        } else {
            left.push(powerup);
        }
        i += 1;
    }
    assert(powerups@.take(i as int) =~= powerups@);
    left
}

/// A kind for a new powerup, chosen at random with the weights of the
/// kinds: the kind that a draw below the sum of the likelihoods selects.
fn create_powerup() -> (r: PowerUpKind)
    ensures
        exists|draw: int| 0 <= draw < total_likelihood() && r == #[trigger] selected_kind(draw),
{
    proof {
        lemma_cumulative_likelihoods();
    }
    let table = PowerUpKind::likelihood_table();
    let total = table[KIND_COUNT - 1];
    let draw = random_below(total as u64);
    let kind = PowerUpKind::select(&table, draw as u32);
    kind
}

impl GameStateView {
    /// The world after the pickups, before new powerups are laid out.
    pub open spec fn with_pickups(self) -> GameStateView {
        GameStateView {
            players: Seq::new(
                self.players.len(),
                |i: int| player_after_pickups(self.players, self.powerups, i),
            ),
            powerups: powerups_left(self.players, self.powerups),
            ..self
        }
    }
}

impl GameState {
    /// Lets every player pick up the powerups within its reach, then lays
    /// out new powerups, of kinds chosen by weight and at random places,
    /// until there are `POWERUP_AMOUNT` of them. Returns the pickups: the id
    /// and position of the player, once for each.
    pub fn handle_powerups(&mut self) -> (r: Vec<(u64, Vec2)>)
        requires
            old(self)@.wf(),
        ensures
            final(self)@.wf(),
            r@ == pickup_events(old(self)@.players, old(self)@.powerups),
            final(self)@.powerups.len() >= POWERUP_AMOUNT,
            final(self)@.powerups.len() == refilled_count(
                old(self)@.with_pickups().powerups.len(),
            ),
            final(self)@.powerups.take(old(self)@.with_pickups().powerups.len() as int) == old(
                self,
            )@.with_pickups().powerups,
            final(self)@ == (GameStateView {
                powerups: final(self)@.powerups,
                ..old(self)@.with_pickups()
            }),
    {
        let ghost before = self@;
        let mut hit_powerup_positions: Vec<(u64, Vec2)> = Vec::new();
        let mut new_powerups: Vec<PowerUp> = Vec::new();
        std::mem::swap(&mut new_powerups, &mut self.powerups);
        let mut i: usize = 0;
        while i < self.players.len()
            invariant
                i <= self.players.len(),
                before.wf(),
                self.players@.len() == before.players.len(),
                self@ == (GameStateView {
                    players: self@.players,
                    powerups: self@.powerups,
                    ..before
                }),
                forall|j: int|
                    0 <= j < i ==> (#[trigger] self@.players[j]) == player_after_pickups(
                        before.players,
                        before.powerups,
                        j,
                    ),
                forall|j: int| i <= j < self.players.len() ==> (#[trigger] self@.players[j])
                    == before.players[j],
                players_wf(self@.players),
                new_powerups@ == powerups_left(before.players.take(i as int), before.powerups),
                powerups_in_world(new_powerups@),
                hit_powerup_positions@ == pickup_events(
                    before.players.take(i as int),
                    before.powerups,
                ),
            decreases self.players.len() - i,
        {
            let ghost views = self@.players;
            proof {
                assert(before.players.take(i as int + 1).drop_last() =~= before.players.take(
                    i as int,
                ));
                assert(views[i as int] == self.players@[i as int]@);
                lemma_powerups_left(before.players.take(i as int + 1), before.powerups);
            }
            let left = pick_up_in_reach(
                &mut self.players[i],
                &new_powerups,
                &mut hit_powerup_positions,
            );
            new_powerups = left;
            proof {
                assert forall|j: int| 0 <= j < i + 1 implies (#[trigger] self@.players[j])
                    == player_after_pickups(before.players, before.powerups, j) by {
                    if j < i {
                        assert(self@.players[j] == views[j]);
                    }
                }
                assert forall|j: int| i + 1 <= j < self.players.len() implies (
                #[trigger] self@.players[j]) == before.players[j] by {
                    assert(self@.players[j] == views[j]);
                }
                assert forall|j: int| 0 <= j < self@.players.len() implies (
                #[trigger] self@.players[j]).wf() by {
                    if j != i {
                        assert(self@.players[j] == views[j]);
                    }
                }
            }
            i += 1;
        }
        proof {
            assert(before.players.take(i as int) =~= before.players);
            assert(self@.players =~= before.with_pickups().players);
        }
        self.powerups = new_powerups;
        let ghost left = self.powerups@;
        // Lay out new powerups while there are too few.
        while self.powerups.len() < POWERUP_AMOUNT
            invariant
                self@ == (GameStateView { powerups: self@.powerups, ..before.with_pickups() }),
                powerups_in_world(self.powerups@),
                left == before.with_pickups().powerups,
                left.len() <= self.powerups@.len(),
                self.powerups@.take(left.len() as int) == left,
                self.powerups@.len() == left.len() || self.powerups@.len() <= POWERUP_AMOUNT,
            decreases POWERUP_AMOUNT - self.powerups.len(),
        {
            let x = random_below(WORLD_SIZE as u64) as i64;
            let y = random_below(WORLD_SIZE as u64) as i64;
            self.powerups.push(PowerUp::new(create_powerup(), vec2(x, y)));
        }
        hit_powerup_positions
    }
}

} // verus!
