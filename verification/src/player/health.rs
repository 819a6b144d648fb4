//! A player's health: how damage and healing change it, and the grace period
//! between the damages of collisions.
use vstd::prelude::*;
use crate::arith::{clamp, clamp_int, div_trunc, lemma_mul_bound};
use crate::constants::SCALE;
use crate::player::{PlaneType, Player, PlayerView};

verus! {

/// The part of `damage` that gets through a plane's resilience, rounded
/// toward zero.
pub open spec fn damage_taken(damage: int, planetype: PlaneType) -> int {
    div_trunc(damage * (SCALE - planetype.spec_resilience()), SCALE as int)
}

/// A change to a player's health: a hit or a healing.
pub enum HealthChange {
    Damage(i16),
    Heal(i16),
}

impl PlayerView {
    /// The player after a hit of `damage`: nothing changes under
    /// invincibility; else the part of the damage that gets through the
    /// plane's resilience leaves the health, which stays between zero and the
    /// plane's.
    pub open spec fn damaged(self, damage: int) -> PlayerView {
        if self.invincible() {
            self
        } else {
            PlayerView {
                health: clamp_int(
                    self.health - damage_taken(damage, self.planetype),
                    0,
                    self.planetype.spec_health() as int,
                ) as i16,
                ..self
            }
        }
    }

    /// The player after healing by `hp`: the health stays between zero and
    /// the plane's.
    pub open spec fn healed(self, hp: int) -> PlayerView {
        PlayerView {
            health: clamp_int(self.health + hp, 0, self.planetype.spec_health() as int) as i16,
            ..self
        }
    }

    /// Damage and healing keep the health between zero and the plane's.
    pub proof fn lemma_health_in_range(self, amount: int)
        requires
            self.wf(),
        ensures
            self.damaged(amount).wf(),
            self.healed(amount).wf(),
            0 <= self.damaged(amount).health <= self.planetype.spec_health(),
            0 <= self.healed(amount).health <= self.planetype.spec_health(),
    {
    }

    /// The player after `delta` more microseconds of grace between
    /// collisions.
    pub open spec fn cooled(self, delta: int) -> PlayerView {
        PlayerView {
            time_to_next_collision: if self.time_to_next_collision - delta > 0 {
                (self.time_to_next_collision - delta) as i64
            } else {
                0
            },
            ..self
        }
    }

    /// The player after the given hits and healings, one after the other.
    pub open spec fn after_health_changes(self, changes: Seq<HealthChange>) -> PlayerView
        decreases changes.len(),
    {
        if changes.len() == 0 {
            self
        } else {
            let before = self.after_health_changes(changes.drop_last());
            match changes.last() {
                HealthChange::Damage(amount) => before.damaged(amount as int),
                HealthChange::Heal(amount) => before.healed(amount as int),
            }
        }
    }

    /// After any sequence of hits and healings the health is between zero
    /// and the plane's full health.
    pub proof fn lemma_health_stays_in_range(self, changes: Seq<HealthChange>)
        requires
            self.wf(),
        ensures
            self.after_health_changes(changes).wf(),
            self.after_health_changes(changes).planetype == self.planetype,
            0 <= self.after_health_changes(changes).health <= self.planetype.spec_health(),
        decreases changes.len(),
    {
        if changes.len() > 0 {
            self.lemma_health_stays_in_range(changes.drop_last());
            let before = self.after_health_changes(changes.drop_last());
            match changes.last() {
                HealthChange::Damage(amount) => before.lemma_health_in_range(amount as int),
                HealthChange::Heal(amount) => before.lemma_health_in_range(amount as int),
            }
        }
    }
}

impl Player {
    /// The health of the player's plane when undamaged.
    pub fn max_health(&self) -> (r: i16)
        ensures
            r == self.planetype.spec_health(),
    {
        self.planetype.health()
    }

    /// Whether the player's health is used up.
    pub fn has_died(&self) -> (r: bool)
        ensures
            r == (self.health == 0),
    {
        self.health == 0
    }

    /// Hits the player with `damage`; returns whether the hit was taken,
    /// which it is unless invincibility is in effect.
    pub fn damage_player(&mut self, damage: i16) -> (took_damage: bool)
        requires
            old(self)@.wf(),
        ensures
            final(self)@ == old(self)@.damaged(damage as int),
            final(self)@.wf(),
            took_damage == !old(self)@.invincible(),
    {
        if self.invincibility_is_on() {
            return false;
        }
        let factor: i64 = SCALE - self.planetype.resilience();
        proof {
            lemma_mul_bound(damage as int, factor as int, 32_768, 1_000);
        }
        let taken: i64 = (damage as i64) * factor / SCALE;
        let health = clamp(self.health as i64 - taken, 0, self.max_health() as i64);
        self.health = health as i16;
        true
    }

    /// Runs the grace period between collisions on by `delta` microseconds.
    pub fn update_collision_timer(&mut self, delta: u16)
        requires
            old(self)@.wf(),
        ensures
            final(self)@ == old(self)@.cooled(delta as int),
            final(self)@.wf(),
    {
        let left = self.time_to_next_collision - delta as i64;
        self.time_to_next_collision = if left > 0 {
            left
        } else {
            0
        };
    }

    /// Heals the player by `hp`.
    pub fn heal_player(&mut self, hp: i16)
        requires
            old(self)@.wf(),
        ensures
            final(self)@ == old(self)@.healed(hp as int),
            final(self)@.wf(),
    {
        let health = clamp(self.health as i64 + hp as i64, 0, self.max_health() as i64);
        self.health = health as i16;
    }
}

} // verus!
