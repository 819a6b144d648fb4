//! Laser beams against players: charged lasers fire, beams age and fade, and
//! a beam that deals damage burns the players that it touches.
use vstd::prelude::*;
use crate::constants::LASER_DAMAGE;
use crate::gamestate::{drop_marked, lasers_wf, GameState, GameStateView};
use crate::killfeed::{announcement, KillFeed, MessageView};
use crate::math::Vec2;
use crate::player::{player_views, players_wf, Player, PlayerView};
use crate::projectiles::{LaserBeam, LaserBeamView};

verus! {

/// The beam that the player fires in this tick, if its laser has finished
/// charging in it.
pub open spec fn beam_of(player: PlayerView) -> Option<LaserBeamView> {
    if player.lasering_this_frame {
        Some(
            LaserBeamView::fired(
                player.position,
                player.rotation,
                LASER_DAMAGE,
                player.id,
                player.name,
            ),
        )
    } else {
        None
    }
}

/// The place from which the player fires a beam in this tick, if it does.
pub open spec fn firing_position(player: PlayerView) -> Option<Vec2> {
    if player.lasering_this_frame {
        Some(player.position)
    } else {
        None
    }
}

/// The beams of the tick: the old ones and those that the players fire now,
/// without those that have faded, each `delta` microseconds older.
pub open spec fn beams_after_tick(
    lasers: Seq<LaserBeamView>,
    players: Seq<PlayerView>,
    delta: int,
) -> Seq<LaserBeamView> {
    (lasers + players.filter_map(|p: PlayerView| beam_of(p))).filter(
        |l: LaserBeamView| !l.should_be_removed(),
    ).map_values(|l: LaserBeamView| l.updated(delta))
}

/// The beam burns the player: it is not the player's own, it deals damage,
/// and it touches the player's plane.
pub open spec fn burns(beam: LaserBeamView, player: PlayerView) -> bool {
    beam.owner != player.id && beam.is_dealing_damage() && beam.reaches(player.position)
}

/// The player after the beam's tick: damaged once if the beam burns it.
pub open spec fn burnt_by(beam: LaserBeamView, player: PlayerView) -> PlayerView {
    if burns(beam, player) {
        player.damaged(beam.damage as int)
    } else {
        player
    }
}

/// The player after the tick of the beams, one after the other.
pub open spec fn burnt(player: PlayerView, beams: Seq<LaserBeamView>) -> PlayerView
    decreases beams.len(),
{
    if beams.len() == 0 {
        player
    } else {
        burnt_by(beams.last(), burnt(player, beams.drop_last()))
    }
}

/// The players after the tick of the beams.
pub open spec fn players_burnt(players: Seq<PlayerView>, beams: Seq<LaserBeamView>) -> Seq<
    PlayerView,
> {
    Seq::new(players.len(), |i: int| burnt(players[i], beams))
}

/// The text that announces a kill by a beam.
pub open spec fn laser_kill_message(beam: LaserBeamView, victim: PlayerView) -> Seq<char> {
    beam.owner_name + " killed "@ + victim.name + " using a Laser."@
}

/// The announcements of the kills by one beam among the players: one for
/// each player that it burns and that is without health afterwards, in the
/// order of the players.
pub open spec fn laser_kills_by(beam: LaserBeamView, players: Seq<PlayerView>) -> Seq<MessageView>
    decreases players.len(),
{
    if players.len() == 0 {
        Seq::empty()
    } else {
        let before = laser_kills_by(beam, players.drop_last());
        let victim = players.last();
        if burns(beam, victim) && burnt_by(beam, victim).health == 0 {
            before.push(announcement(laser_kill_message(beam, victim)))
        } else {
            before
        }
    }
}

/// The announcements of the kills by the beams, beam by beam.
pub open spec fn laser_kills(players: Seq<PlayerView>, beams: Seq<LaserBeamView>) -> Seq<
    MessageView,
>
    decreases beams.len(),
{
    if beams.len() == 0 {
        Seq::empty()
    } else {
        laser_kills(players, beams.drop_last()) + laser_kills_by(
            beams.last(),
            players_burnt(players, beams.drop_last()),
        )
    }
}

/// Burns keep a player valid and change neither its place nor its name.
pub proof fn lemma_burnt(player: PlayerView, beams: Seq<LaserBeamView>)
    requires
        player.wf(),
    ensures
        burnt(player, beams).wf(),
        burnt(player, beams).position == player.position,
        burnt(player, beams).id == player.id,
        burnt(player, beams).name == player.name,
    decreases beams.len(),
{
    if beams.len() > 0 {
        lemma_burnt(player, beams.drop_last());
        burnt(player, beams.drop_last()).lemma_health_in_range(beams.last().damage as int);
    }
}

/// Lets one beam burn the players: each player that it burns takes its
/// damage once, and each that is without health afterwards is announced.
fn burn_players(beam: &LaserBeam, players: &mut Vec<Player>, killfeed: &mut KillFeed)
    requires
        beam@.wf(),
        players_wf(player_views(old(players)@)),
    ensures
        final(players)@.len() == old(players)@.len(),
        forall|i: int|
            0 <= i < old(players)@.len() ==> (#[trigger] player_views(final(players)@)[i])
                == burnt_by(beam@, player_views(old(players)@)[i]),
        players_wf(player_views(final(players)@)),
        final(killfeed)@ == old(killfeed)@ + laser_kills_by(beam@, player_views(old(players)@)),
{
    let ghost before = player_views(players@);
    let ghost feed = killfeed@;
    let active = beam.is_dealing_damage();
    let mut i: usize = 0;
    while i < players.len()
        invariant
            i <= players.len(),
            players@.len() == before.len(),
            beam@.wf(),
            players_wf(before),
            players_wf(player_views(players@)),
            active == beam@.is_dealing_damage(),
            forall|j: int|
                0 <= j < i ==> (#[trigger] player_views(players@)[j]) == burnt_by(beam@, before[j]),
            forall|j: int| i <= j < players.len() ==> (#[trigger] player_views(players@)[j])
                == before[j],
            killfeed@ == feed + laser_kills_by(beam@, before.take(i as int)),
        decreases players.len() - i,
    {
        let ghost views = player_views(players@);
        let ghost seen = before.take(i as int);
        let ghost next = before.take(i as int + 1);
        proof {
            assert(next.drop_last() =~= seen);
            assert(views[i as int] == players@[i as int]@);
        }
        if players[i].id != beam.owner && active && beam.reaches(players[i].position) {
            players[i].damage_player(beam.damage);
            if players[i].has_died() {
                let mut msg = beam.owner_name.clone();
                msg.append(" killed ");
                msg.append(players[i].name.as_str());
                msg.append(" using a Laser.");
                killfeed.add_message(msg.as_str());
            }
        }
        proof {
            assert forall|j: int| 0 <= j < i + 1 implies (#[trigger] player_views(players@)[j])
                == burnt_by(beam@, before[j]) by {
                if j < i {
                    assert(player_views(players@)[j] == views[j]);
                }
            }
            assert forall|j: int| i + 1 <= j < players.len() implies (#[trigger] player_views(
                players@,
            )[j]) == before[j] by {
                assert(player_views(players@)[j] == views[j]);
            }
        }
        i += 1;
    }
    assert(before.take(i as int) =~= before);
}

impl GameStateView {
    /// The beams after their tick.
    pub open spec fn beams(self, delta: int) -> Seq<LaserBeamView> {
        beams_after_tick(self.lasers, self.players, delta)
    }

    /// The world after the beams' tick: the players whose lasers have
    /// finished charging have fired, the beams that have faded are gone, the
    /// others have aged and burnt the players that they touch, and the kills
    /// are announced.
    pub open spec fn with_lasers_handled(self, delta: int) -> GameStateView {
        GameStateView {
            players: players_burnt(self.players, self.beams(delta)),
            lasers: self.beams(delta),
            killfeed: self.killfeed + laser_kills(self.players, self.beams(delta)),
            ..self
        }
    }
}

/// What a filter keeps of valid beams is valid.
pub proof fn lemma_filtered_lasers_wf(
    lasers: Seq<LaserBeamView>,
    keep: spec_fn(LaserBeamView) -> bool,
)
    requires
        lasers_wf(lasers),
    ensures
        lasers_wf(lasers.filter(keep)),
{
    let after = lasers.filter(keep);
    assert forall|j: int| 0 <= j < after.len() implies (#[trigger] after[j]).wf() by {
        lasers.lemma_filter_contains_rev(keep, after[j]);
    }
}

impl GameState {
    /// Lets the players whose lasers have finished charging fire their
    /// beams; returns the places from which they fire.
    fn fire_lasers(&mut self) -> (r: Vec<Vec2>)
        requires
            old(self)@.wf(),
        ensures
            final(self)@ == (GameStateView {
                lasers: old(self)@.lasers + old(self)@.players.filter_map(
                    |p: PlayerView| beam_of(p),
                ),
                ..old(self)@
            }),
            final(self)@.wf(),
            r@ == old(self)@.players.filter_map(|p: PlayerView| firing_position(p)),
    {
        let ghost before = self@;
        let ghost beam = |p: PlayerView| beam_of(p);
        let ghost place = |p: PlayerView| firing_position(p);
        let mut fired_laser_positions: Vec<Vec2> = Vec::new();
        let mut i: usize = 0;
        while i < self.players.len()
            invariant
                i <= self.players.len(),
                before.wf(),
                beam == |p: PlayerView| beam_of(p),
                place == |p: PlayerView| firing_position(p),
                self@ == (GameStateView { lasers: self@.lasers, ..before }),
                self@.lasers == before.lasers + before.players.take(i as int).filter_map(beam),
                lasers_wf(self@.lasers),
                fired_laser_positions@ == before.players.take(i as int).filter_map(place),
            decreases self.players.len() - i,
        {
            proof {
                before.players.lemma_filter_map_take_succ(beam, i as int);
                before.players.lemma_filter_map_take_succ(place, i as int);
            }
            let ghost lasers = self@.lasers;
            match self.players[i].maybe_get_laser() {
                Some(l) => {
                    proof {
                        self.lasers@.lemma_push_map_commute(|l: LaserBeam| l@, l);
                    }
                    self.lasers.push(l);
                    fired_laser_positions.push(self.players[i].position);
                },
                None => {},
            }
            i += 1;
        }
        assert(before.players.take(i as int) =~= before.players);
        fired_laser_positions
    }

    /// Fires the beams of the players whose lasers have finished charging,
    /// drops the beams that have faded, ages the others by `delta`
    /// microseconds and lets them burn the players. Returns the places from
    /// which beams were fired.
    pub fn handle_lasers(&mut self, delta: u16) -> (r: Vec<Vec2>)
        requires
            old(self)@.wf(),
        ensures
            final(self)@ == old(self)@.with_lasers_handled(delta as int),
            final(self)@.wf(),
            r@ == old(self)@.players.filter_map(|p: PlayerView| firing_position(p)),
    {
        let ghost before = self@;
        let fired_laser_positions = self.fire_lasers();
        let ghost lasting = |l: LaserBeamView| !l.should_be_removed();
        let ghost aged = |l: LaserBeamView| l.updated(delta as int);
        // Drop the beams that have faded.
        let mut faded: Vec<bool> = Vec::new();
        let mut i: usize = 0;
        while i < self.lasers.len()
            invariant
                i <= self.lasers.len(),
                faded@.len() == i,
                forall|j: int|
                    0 <= j < i ==> #[trigger] faded@[j] == self@.lasers[j].should_be_removed(),
            decreases self.lasers.len() - i,
        {
            faded.push(self.lasers[i].should_be_removed());
            i += 1;
        }
        let ghost all = self@.lasers;
        drop_marked(&mut self.lasers, &faded, Ghost(lasting));
        let ghost kept = self@.lasers;
        proof {
            lemma_filtered_lasers_wf(all, lasting);
        }
        let mut i: usize = 0;
        while i < self.lasers.len()
            invariant
                i <= self.lasers.len(),
                before.wf(),
                aged == |l: LaserBeamView| l.updated(delta as int),
                self.lasers@.len() == kept.len(),
                lasers_wf(kept),
                self@ == (GameStateView {
                    players: self@.players,
                    lasers: self@.lasers,
                    killfeed: self@.killfeed,
                    ..before
                }),
                forall|j: int| 0 <= j < i ==> (#[trigger] self@.lasers[j]) == aged(kept[j]),
                forall|j: int| i <= j < self.lasers.len() ==> (#[trigger] self@.lasers[j])
                    == kept[j],
                lasers_wf(self@.lasers),
                self@.players == players_burnt(
                    before.players,
                    kept.map_values(aged).take(i as int),
                ),
                players_wf(self@.players),
                self@.killfeed == before.killfeed + laser_kills(
                    before.players,
                    kept.map_values(aged).take(i as int),
                ),
            decreases self.lasers.len() - i,
        {
            let ghost beams = kept.map_values(aged);
            let ghost passed = beams.take(i as int);
            let ghost now = beams.take(i as int + 1);
            let ghost views = self@.lasers;
            proof {
                assert(views[i as int] == self.lasers@[i as int]@);
                assert(now.drop_last() =~= passed);
            }
            self.lasers[i].update(delta);
            proof {
                assert(self@.lasers =~= views.update(i as int, aged(kept[i as int])));
            }
            burn_players(&self.lasers[i], &mut self.players, &mut self.killfeed);
            i += 1;
        }
        proof {
            let beams = kept.map_values(aged);
            assert(beams.take(i as int) =~= beams);
            assert(self@.lasers =~= beams);
        }
        fired_laser_positions
    }
}

} // verus!
