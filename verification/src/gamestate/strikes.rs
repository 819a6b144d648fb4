//! Projectiles against players: every projectile moves on, and those in
//! flight strike the players that they come near.
use vstd::prelude::*;
use crate::constants::{BULLET_ARM_TIME, BULLET_RADIUS, PLANE_SIZE};
use crate::gamestate::{
    drop_marked,
    projectile_views,
    projectiles_wf,
    GameState,
    GameStateView,
};
use crate::hurricane::Hurricane;
use crate::killfeed::{announcement, KillFeed, MessageView};
use crate::math::{
    closest_vector,
    toroidal_distance_sq,
    toroidal_distance_squared,
    Vec2,
};
use crate::player::{player_views, players_wf, Player, PlayerView};
use crate::projectiles::{BulletView, ProjectileKind, ProjectileView};

verus! {

/// The projectile strikes a plane at `position`: it is armed, and nearer,
/// the short way round the torus, than the size of a plane.
pub open spec fn strikes(projectile: ProjectileView, position: Vec2) -> bool {
    projectile.is_armed() && toroidal_distance_squared(projectile.position(), position) < (
    PLANE_SIZE * BULLET_RADIUS) * (PLANE_SIZE * BULLET_RADIUS)
}

/// The projectile strikes one of the players.
pub open spec fn strikes_any(projectile: ProjectileView, players: Seq<PlayerView>) -> bool {
    exists|i: int| 0 <= i < players.len() && strikes(projectile, (#[trigger] players[i]).position)
}

/// The player after the projectile has passed: damaged if it was struck.
pub open spec fn hit_by(projectile: ProjectileView, player: PlayerView) -> PlayerView {
    if strikes(projectile, player.position) {
        player.damaged(projectile.damage() as int)
    } else {
        player
    }
}

/// The player after the projectiles have passed, one after the other.
pub open spec fn struck(player: PlayerView, projectiles: Seq<ProjectileView>) -> PlayerView
    decreases projectiles.len(),
{
    if projectiles.len() == 0 {
        player
    } else {
        hit_by(projectiles.last(), struck(player, projectiles.drop_last()))
    }
}

/// The players after the projectiles have passed.
pub open spec fn players_struck(players: Seq<PlayerView>, projectiles: Seq<ProjectileView>) -> Seq<
    PlayerView,
> {
    Seq::new(players.len(), |i: int| struck(players[i], projectiles))
}

/// The text that announces a kill by a projectile: a player who ran into its
/// own projectile is named alone.
pub open spec fn gun_kill_message(projectile: ProjectileView, victim: PlayerView) -> Seq<char> {
    if projectile.shooter() == victim.id {
        victim.name + " killed themselves using a Gun."@
    } else {
        projectile.shooter_name() + " killed "@ + victim.name + " using a Gun."@
    }
}

/// The announcements of the kills by one projectile among the players: one
/// for each player that it strikes and that is without health afterwards, in
/// the order of the players.
pub open spec fn kills_by(projectile: ProjectileView, players: Seq<PlayerView>) -> Seq<MessageView>
    decreases players.len(),
{
    if players.len() == 0 {
        Seq::empty()
    } else {
        let before = kills_by(projectile, players.drop_last());
        let victim = players.last();
        if strikes(projectile, victim.position) && hit_by(projectile, victim).health == 0 {
            before.push(announcement(gun_kill_message(projectile, victim)))
        } else {
            before
        }
    }
}

/// The ids of the players that one projectile strikes, in the order of the
/// players.
pub open spec fn hits_by(projectile: ProjectileView, players: Seq<PlayerView>) -> Seq<u64>
    decreases players.len(),
{
    if players.len() == 0 {
        Seq::empty()
    } else {
        let before = hits_by(projectile, players.drop_last());
        if strikes(projectile, players.last().position) {
            before.push(players.last().id)
        } else {
            before
        }
    }
}

/// The announcements of the kills by the projectiles, which pass one after
/// the other.
pub open spec fn bullet_kills(players: Seq<PlayerView>, projectiles: Seq<ProjectileView>) -> Seq<
    MessageView,
>
    decreases projectiles.len(),
{
    if projectiles.len() == 0 {
        Seq::empty()
    } else {
        bullet_kills(players, projectiles.drop_last()) + kills_by(
            projectiles.last(),
            players_struck(players, projectiles.drop_last()),
        )
    }
}

/// The ids of the players struck by the projectiles, once for each strike,
/// projectile by projectile.
pub open spec fn bullet_hits(players: Seq<PlayerView>, projectiles: Seq<ProjectileView>) -> Seq<u64>
    decreases projectiles.len(),
{
    if projectiles.len() == 0 {
        Seq::empty()
    } else {
        bullet_hits(players, projectiles.drop_last()) + hits_by(
            projectiles.last(),
            players_struck(players, projectiles.drop_last()),
        )
    }
}

/// The projectiles after `delta` more microseconds, those that are spent
/// left out.
pub open spec fn projectiles_in_flight(
    projectiles: Seq<ProjectileView>,
    players: Seq<PlayerView>,
    hurricane: Option<Hurricane>,
    delta: int,
) -> Seq<ProjectileView> {
    projectiles.map_values(|p: ProjectileView| p.updated(players, hurricane, delta)).filter(
        |p: ProjectileView| !p.is_done(),
    )
}

/// Strikes keep a player valid and change neither its place nor its name.
pub proof fn lemma_struck(player: PlayerView, projectiles: Seq<ProjectileView>)
    requires
        player.wf(),
    ensures
        struck(player, projectiles).wf(),
        struck(player, projectiles).position == player.position,
        struck(player, projectiles).id == player.id,
        struck(player, projectiles).name == player.name,
    decreases projectiles.len(),
{
    if projectiles.len() > 0 {
        let rest = projectiles.drop_last();
        lemma_struck(player, rest);
    }
}

/// Lets one projectile pass the players: each player that it strikes takes
/// its damage; each that is without health afterwards is announced; each
/// strike is noted in `hit_players`. Returns whether it struck anyone.
fn strike_players(
    projectile: &ProjectileKind,
    players: &mut Vec<Player>,
    killfeed: &mut KillFeed,
    hit_players: &mut Vec<u64>,
) -> (hit: bool)
    requires
        projectile@.wf(),
        players_wf(player_views(old(players)@)),
    ensures
        final(players)@.len() == old(players)@.len(),
        forall|i: int|
            0 <= i < old(players)@.len() ==> (#[trigger] player_views(final(players)@)[i])
                == hit_by(projectile@, player_views(old(players)@)[i]),
        players_wf(player_views(final(players)@)),
        final(killfeed)@ == old(killfeed)@ + kills_by(projectile@, player_views(old(players)@)),
        final(hit_players)@ == old(hit_players)@ + hits_by(
            projectile@,
            player_views(old(players)@),
        ),
        hit == strikes_any(projectile@, player_views(old(players)@)),
{
    let ghost before = player_views(players@);
    let ghost feed = killfeed@;
    let ghost noted = hit_players@;
    let hit_radius = PLANE_SIZE * BULLET_RADIUS;
    let reach = hit_radius * hit_radius;
    let killer = projectile.get_shooter_name();
    let armed = projectile.is_armed();
    let position = projectile.get_position();
    let damage = projectile.get_damage();
    let shooter = projectile.get_shooter();
    let mut hit = false;
    let mut i: usize = 0;
    while i < players.len()
        invariant
            i <= players.len(),
            players@.len() == before.len(),
            projectile@.wf(),
            players_wf(before),
            players_wf(player_views(players@)),
            reach == (PLANE_SIZE * BULLET_RADIUS) * (PLANE_SIZE * BULLET_RADIUS),
            killer@ == projectile@.shooter_name(),
            armed == projectile@.is_armed(),
            position == projectile@.position(),
            damage == projectile@.damage(),
            shooter == projectile@.shooter(),
            forall|j: int|
                0 <= j < i ==> (#[trigger] player_views(players@)[j]) == hit_by(
                    projectile@,
                    before[j],
                ),
            forall|j: int| i <= j < players.len() ==> (#[trigger] player_views(players@)[j])
                == before[j],
            killfeed@ == feed + kills_by(projectile@, before.take(i as int)),
            hit_players@ == noted + hits_by(projectile@, before.take(i as int)),
            hit == strikes_any(projectile@, before.take(i as int)),
        decreases players.len() - i,
    {
        let ghost views = player_views(players@);
        let ghost seen = before.take(i as int);
        let ghost next = before.take(i as int + 1);
        proof {
            assert(next.drop_last() =~= seen);
            assert(views[i as int] == players@[i as int]@);
        }
        let distance = toroidal_distance_sq(position, players[i].position);
        if distance < reach && armed {
            players[i].damage_player(damage);
            if players[i].has_died() {
                let msg = if shooter == players[i].id {
                    let mut text = players[i].name.clone();
                    text.append(" killed themselves using a Gun.");
                    text
                } else {
                    let mut text = killer.clone();
                    text.append(" killed ");
                    text.append(players[i].name.as_str());
                    text.append(" using a Gun.");
                    text
                };
                killfeed.add_message(msg.as_str());
            }
            hit_players.push(players[i].id);
            hit = true;
        }
        proof {
            assert forall|j: int| 0 <= j < i + 1 implies (#[trigger] player_views(players@)[j])
                == hit_by(projectile@, before[j]) by {
                if j < i {
                    assert(player_views(players@)[j] == views[j]);
                }
            }
            assert forall|j: int| i + 1 <= j < players.len() implies (#[trigger] player_views(
                players@,
            )[j]) == before[j] by {
                assert(player_views(players@)[j] == views[j]);
            }
        }
        i += 1;
    }
    assert(before.take(i as int) =~= before);
    hit
}

impl GameStateView {
    /// The projectiles after their tick, those that are spent left out.
    pub open spec fn in_flight(self, delta: int) -> Seq<ProjectileView> {
        projectiles_in_flight(self.projectiles, self.players, self.hurricane, delta)
    }

    /// The world after the projectiles' tick: every projectile has moved on;
    /// those in flight have passed the players one after the other, and each
    /// player struck has taken the damage; those that struck a player are
    /// gone, as are those that are spent; the kills are announced.
    pub open spec fn with_bullets_handled(self, delta: int) -> GameStateView {
        GameStateView {
            players: players_struck(self.players, self.in_flight(delta)),
            projectiles: self.in_flight(delta).filter(
                |p: ProjectileView| !strikes_any(p, self.players),
            ),
            killfeed: self.killfeed + bullet_kills(self.players, self.in_flight(delta)),
            ..self
        }
    }
}

/// Where one of the projectiles has changed, the views of the others are as
/// they were.
pub proof fn lemma_views_after_update(
    before: Seq<ProjectileKind>,
    after: Seq<ProjectileKind>,
    index: int,
)
    requires
        0 <= index < before.len(),
        after == before.update(index, after[index]),
    ensures
        projectile_views(after) == projectile_views(before).update(index, after[index]@),
{
}

impl GameState {
    /// Moves every projectile on by `delta` microseconds.
    fn update_projectiles(&mut self, delta: u16)
        requires
            old(self)@.wf(),
        ensures
            final(self)@ == (GameStateView {
                projectiles: old(self)@.projectiles.map_values(
                    |p: ProjectileView|
                        p.updated(old(self)@.players, old(self)@.hurricane, delta as int),
                ),
                ..old(self)@
            }),
            final(self)@.wf(),
    {
        let ghost before = self@;
        let ghost moved = |p: ProjectileView|
            p.updated(before.players, before.hurricane, delta as int);
        let mut i: usize = 0;
        while i < self.projectiles.len()
            invariant
                i <= self.projectiles.len(),
                before.wf(),
                self.projectiles@.len() == before.projectiles.len(),
                self@ == (GameStateView { projectiles: self@.projectiles, ..before }),
                moved == |p: ProjectileView|
                    p.updated(before.players, before.hurricane, delta as int),
                forall|j: int|
                    0 <= j < i ==> (#[trigger] self@.projectiles[j]) == moved(
                        before.projectiles[j],
                    ),
                forall|j: int| i <= j < self.projectiles.len() ==> (#[trigger] self@.projectiles[j])
                    == before.projectiles[j],
                projectiles_wf(self@.projectiles),
            decreases self.projectiles.len() - i,
        {
            let ghost views = self@.projectiles;
            let ghost vector = self.projectiles@;
            proof {
                assert(views[i as int] == self.projectiles@[i as int]@);
            }
            self.projectiles[i].update(&self.players, delta, &self.hurricane);
            proof {
                lemma_views_after_update(vector, self.projectiles@, i as int);
            }
            i += 1;
        }
        assert(self@.projectiles =~= before.projectiles.map_values(moved));
    }

    /// Moves every projectile on by `delta` microseconds, drops those that
    /// are spent, and lets the others strike the players. Returns the ids of
    /// the players struck, once for each strike.
    pub fn handle_bullets(&mut self, delta: u16) -> (r: Vec<u64>)
        requires
            old(self)@.wf(),
        ensures
            final(self)@ == old(self)@.with_bullets_handled(delta as int),
            final(self)@.wf(),
            r@ == bullet_hits(old(self)@.players, old(self)@.in_flight(delta as int)),
    {
        let ghost before = self@;
        self.update_projectiles(delta);
        let ghost flying = |p: ProjectileView| !p.is_done();
        let ghost missing = |p: ProjectileView| !strikes_any(p, before.players);
        // Drop the projectiles that are spent.
        let mut spent: Vec<bool> = Vec::new();
        let mut i: usize = 0;
        while i < self.projectiles.len()
            invariant
                i <= self.projectiles.len(),
                spent@.len() == i,
                forall|j: int|
                    0 <= j < i ==> #[trigger] spent@[j] == self@.projectiles[j].is_done(),
            decreases self.projectiles.len() - i,
        {
            spent.push(self.projectiles[i].is_done());
            i += 1;
        }
        let ghost moved = self@.projectiles;
        drop_marked(&mut self.projectiles, &spent, Ghost(flying));
        let ghost flight = self@.projectiles;
        proof {
            lemma_filtered_projectiles_wf(moved, flying);
        }
        // Let each projectile in flight pass the players.
        let mut hit_players: Vec<u64> = Vec::new();
        let mut struck_someone: Vec<bool> = Vec::new();
        let mut i: usize = 0;
        while i < self.projectiles.len()
            invariant
                i <= self.projectiles.len(),
                before.wf(),
                self@ == (GameStateView {
                    players: self@.players,
                    projectiles: flight,
                    killfeed: self@.killfeed,
                    ..before
                }),
                projectiles_wf(flight),
                self@.players == players_struck(before.players, flight.take(i as int)),
                players_wf(self@.players),
                self@.killfeed == before.killfeed + bullet_kills(
                    before.players,
                    flight.take(i as int),
                ),
                hit_players@ == bullet_hits(before.players, flight.take(i as int)),
                struck_someone@.len() == i,
                forall|j: int|
                    0 <= j < i ==> #[trigger] struck_someone@[j] == strikes_any(
                        flight[j],
                        before.players,
                    ),
            decreases self.projectiles.len() - i,
        {
            let ghost passed = flight.take(i as int);
            let ghost now = flight.take(i as int + 1);
            let ghost x = flight[i as int];
            proof {
                assert(now.drop_last() =~= passed);
            }
            let hit = strike_players(
                &self.projectiles[i],
                &mut self.players,
                &mut self.killfeed,
                &mut hit_players,
            );
            proof {
                lemma_strike_sees_same_players(x, before.players, passed);
            }
            struck_someone.push(hit);
            i += 1;
        }
        assert(flight.take(i as int) =~= flight);
        // Drop the projectiles that struck a player.
        drop_marked(&mut self.projectiles, &struck_someone, Ghost(missing));
        proof {
            lemma_filtered_projectiles_wf(flight, missing);
        }
        hit_players
    }
}

/// A projectile strikes the same players whether it is asked before or after
/// other projectiles have struck: strikes move no player.
pub proof fn lemma_strike_sees_same_players(
    projectile: ProjectileView,
    players: Seq<PlayerView>,
    passed: Seq<ProjectileView>,
)
    requires
        players_wf(players),
    ensures
        players_wf(players_struck(players, passed)),
        strikes_any(projectile, players_struck(players, passed)) == strikes_any(
            projectile,
            players,
        ),
{
    let standing = players_struck(players, passed);
    assert forall|j: int| 0 <= j < players.len() implies (#[trigger] standing[j]).position
        == players[j].position && standing[j].wf() by {
        lemma_struck(players[j], passed);
    }
    if strikes_any(projectile, players) {
        let w = choose|w: int|
            0 <= w < players.len() && strikes(projectile, (#[trigger] players[w]).position);
        assert(strikes(projectile, standing[w].position));
    }
}

/// What a filter keeps of valid projectiles is valid.
pub proof fn lemma_filtered_projectiles_wf(
    projectiles: Seq<ProjectileView>,
    keep: spec_fn(ProjectileView) -> bool,
)
    requires
        projectiles_wf(projectiles),
    ensures
        projectiles_wf(projectiles.filter(keep)),
{
    let after = projectiles.filter(keep);
    assert forall|j: int| 0 <= j < after.len() implies (#[trigger] after[j]).wf() by {
        projectiles.lemma_filter_contains_rev(keep, after[j]);
    }
}

/// A bullet cannot hit before it is armed, and can once it is: a bullet whose
/// time of flight is no more than the arming delay strikes no plane, wherever
/// the plane is; one that has flown for longer strikes a plane at its own
/// position.
pub proof fn lemma_bullet_arming(bullet: BulletView, position: Vec2)
    requires
        bullet.wf(),
    ensures
        bullet.lifetime <= BULLET_ARM_TIME ==> !strikes(
            ProjectileView::Bullet(bullet),
            position,
        ),
        bullet.lifetime > BULLET_ARM_TIME ==> strikes(
            ProjectileView::Bullet(bullet),
            bullet.position,
        ),
{
    let to_itself = closest_vector(bullet.position, bullet.position);
    assert(to_itself.x == 0 && to_itself.y == 0);
}

} // verus!
