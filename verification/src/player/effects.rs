//! The powerups in effect on a player: which exclude which, how they age,
//! and how a new one takes effect.
use vstd::prelude::*;
use crate::arith::clamp;
use crate::constants::POWERUP_HEALTH_BOOST;
use crate::powerups::{AppliedPowerup, PowerUpKind};
use crate::player::{Player, PlayerView};

verus! {

/// Two kinds exclude each other on one player: a kind excludes itself, and a
/// weapon excludes every weapon.
pub open spec fn kinds_conflict(a: PowerUpKind, b: PowerUpKind) -> bool {
    a == b || (a.spec_is_weapon() && b.spec_is_weapon())
}

/// No two of the applied powerups exclude each other: each kind occurs at
/// most once, and at most one of them is a weapon.
pub open spec fn powerups_exclusive(powerups: Seq<AppliedPowerup>) -> bool {
    forall|i: int, j: int|
        0 <= i < j < powerups.len() ==> !kinds_conflict(
            (#[trigger] powerups[i]).kind,
            (#[trigger] powerups[j]).kind,
        )
}

/// The applied powerup is of a kind that is stored, and has time left if it
/// has a time limit.
pub open spec fn is_alive(powerup: AppliedPowerup) -> bool {
    !powerup.kind.spec_is_instant() && match powerup.duration_left {
        Some(left) => left > 0,
        None => true,
    }
}

/// Every applied powerup with a time limit has time left, and none is of a
/// kind that acts at once.
pub open spec fn powerups_alive(powerups: Seq<AppliedPowerup>) -> bool {
    forall|i: int| 0 <= i < powerups.len() ==> is_alive(#[trigger] powerups[i])
}

/// None of the applied powerups is a weapon of another kind than `kind`.
pub open spec fn is_only_weapon(powerups: Seq<AppliedPowerup>, kind: PowerUpKind) -> bool {
    forall|i: int|
        0 <= i < powerups.len() && (#[trigger] powerups[i]).kind.spec_is_weapon()
            ==> powerups[i].kind == kind
}

/// One of the applied powerups is of the given kind.
pub open spec fn has_kind(powerups: Seq<AppliedPowerup>, kind: PowerUpKind) -> bool {
    exists|i: int| 0 <= i < powerups.len() && (#[trigger] powerups[i]).kind == kind
}

/// The powerup after `delta` more microseconds, or `None` where its time is
/// up by then.
pub open spec fn aged_powerup(p: AppliedPowerup, delta: int) -> Option<AppliedPowerup> {
    match p.duration_left {
        None => Some(p),
        Some(left) => if left > delta {
            Some(AppliedPowerup { kind: p.kind, duration_left: Some((left - delta) as i64) })
        } else {
            None
        },
    }
}

/// The applied powerups after `delta` more microseconds: each has aged, and
/// those whose time is up are gone.
pub open spec fn aged_powerups(powerups: Seq<AppliedPowerup>, delta: int) -> Seq<AppliedPowerup> {
    powerups.filter_map(|p: AppliedPowerup| aged_powerup(p, delta))
}

/// The applied powerups that the kind `kind` does not exclude.
pub open spec fn compatible_powerups(powerups: Seq<AppliedPowerup>, kind: PowerUpKind) -> Seq<
    AppliedPowerup,
> {
    powerups.filter(|p: AppliedPowerup| !kinds_conflict(p.kind, kind))
}

/// The ageing of powerups keeps them exclusive and alive, and removes none
/// that has no time limit.
pub proof fn lemma_aged_powerups(powerups: Seq<AppliedPowerup>, delta: int)
    requires
        delta >= 0,
        powerups_exclusive(powerups),
        powerups_alive(powerups),
    ensures
        powerups_exclusive(aged_powerups(powerups, delta)),
        powerups_alive(aged_powerups(powerups, delta)),
        forall|kind: PowerUpKind| #[trigger]
            has_kind(aged_powerups(powerups, delta), kind) ==> has_kind(powerups, kind),
        forall|i: int|
            0 <= i < powerups.len() && (#[trigger] powerups[i]).duration_left is None ==> has_kind(
                aged_powerups(powerups, delta),
                powerups[i].kind,
            ),
    decreases powerups.len(),
{
    let aged = aged_powerups(powerups, delta);
    if powerups.len() > 0 {
        let rest = powerups.drop_last();
        let last = powerups.last();
        lemma_aged_powerups(rest, delta);
        let aged_rest = aged_powerups(rest, delta);
        assert(forall|i: int| 0 <= i < aged_rest.len() ==> aged[i] == aged_rest[i]);
        assert forall|kind: PowerUpKind| #[trigger] has_kind(aged, kind) implies has_kind(
            powerups,
            kind,
        ) by {
            let i = choose|i: int| 0 <= i < aged.len() && (#[trigger] aged[i]).kind == kind;
            if i < aged_rest.len() {
                assert(has_kind(aged_rest, kind));
            }
        }
        assert(powerups_exclusive(aged)) by {
            assert forall|i: int, j: int| 0 <= i < j < aged.len() implies !kinds_conflict(
                (#[trigger] aged[i]).kind,
                (#[trigger] aged[j]).kind,
            ) by {
                if j >= aged_rest.len() {
                    assert(has_kind(aged_rest, aged[i].kind));
                }
            }
        }
        assert forall|i: int|
            0 <= i < powerups.len() && (#[trigger] powerups[i]).duration_left is None
            implies has_kind(aged, powerups[i].kind) by {
            if i < rest.len() {
                assert(rest[i] == powerups[i]);
            } else {
                assert(aged[aged.len() - 1].kind == powerups[i].kind);
            }
        }
    }
}

/// What is left after the powerups that a kind excludes are taken away is
/// still exclusive and alive, holds nothing that the kind excludes, and
/// holds every powerup that the kind does not exclude.
pub proof fn lemma_compatible_powerups(powerups: Seq<AppliedPowerup>, kind: PowerUpKind)
    requires
        powerups_exclusive(powerups),
        powerups_alive(powerups),
    ensures
        powerups_exclusive(compatible_powerups(powerups, kind)),
        powerups_alive(compatible_powerups(powerups, kind)),
        forall|i: int|
            0 <= i < compatible_powerups(powerups, kind).len() ==> !kinds_conflict(
                (#[trigger] compatible_powerups(powerups, kind)[i]).kind,
                kind,
            ) && has_kind(powerups, compatible_powerups(powerups, kind)[i].kind),
        forall|i: int|
            0 <= i < powerups.len() && !kinds_conflict((#[trigger] powerups[i]).kind, kind)
                ==> has_kind(compatible_powerups(powerups, kind), powerups[i].kind),
    decreases powerups.len(),
{
    let kept = compatible_powerups(powerups, kind);
    reveal(Seq::filter);
    if powerups.len() > 0 {
        let rest = powerups.drop_last();
        let last = powerups.last();
        lemma_compatible_powerups(rest, kind);
        let kept_rest = compatible_powerups(rest, kind);
        assert forall|i: int|
            0 <= i < powerups.len() && !kinds_conflict(
                (#[trigger] powerups[i]).kind,
                kind,
            ) implies has_kind(kept, powerups[i].kind) by {
            if i < rest.len() {
                assert(rest[i] == powerups[i]);
                let k = choose|k: int|
                    0 <= k < kept_rest.len() && (#[trigger] kept_rest[k]).kind == powerups[i].kind;
                assert(kept[k] == kept_rest[k]);
            } else {
                assert(kept[kept.len() - 1] == last);
            }
        }
    }
}

impl PlayerView {
    /// Invincibility is in effect.
    pub open spec fn invincible(self) -> bool {
        has_kind(self.powerups, PowerUpKind::Invincibility)
    }

    /// The player with its powerups aged by `delta` microseconds.
    pub open spec fn with_aged_powerups(self, delta: int) -> PlayerView {
        PlayerView { powerups: aged_powerups(self.powerups, delta), ..self }
    }

    /// The player after a powerup of the given kind took effect: the applied
    /// powerups that the kind excludes are gone; a health powerup has healed;
    /// a kind that does not act at once has been added, freshly applied.
    pub open spec fn applied(self, kind: PowerUpKind) -> PlayerView {
        let kept = compatible_powerups(self.powerups, kind);
        PlayerView {
            health: if kind == PowerUpKind::Health {
                self.healed(POWERUP_HEALTH_BOOST as int).health
            } else {
                self.health
            },
            powerups: if kind.spec_is_instant() {
                kept
            } else {
                kept.push(AppliedPowerup { kind, duration_left: kind.spec_starting_duration() })
            },
            ..self
        }
    }

    /// The player after a request to trigger the pending powerup: it took
    /// effect and the slot is empty.
    pub open spec fn triggered(self) -> PlayerView {
        match self.available_powerup {
            Some(kind) => PlayerView { available_powerup: None, ..self.applied(kind) },
            None => self,
        }
    }

    /// The player after picking up a powerup: a kind that waits for a trigger
    /// fills the slot, replacing what was there; any other kind takes effect.
    pub open spec fn picked_up(self, kind: PowerUpKind) -> PlayerView {
        if kind.spec_is_triggerable() {
            PlayerView { available_powerup: Some(kind), ..self }
        } else {
            self.applied(kind)
        }
    }

    /// Applying, triggering and picking up powerups keep the player's state
    /// valid.
    pub proof fn lemma_applied_wf(self, kind: PowerUpKind)
        requires
            self.wf(),
        ensures
            self.applied(kind).wf(),
            self.triggered().wf(),
            self.picked_up(kind).wf(),
    {
        self.lemma_applied_wf_of(kind);
        match self.available_powerup {
            Some(pending) => {
                self.lemma_applied_wf_of(pending);
            },
            None => {},
        }
    }

    /// Applying a powerup keeps the player's state valid.
    pub proof fn lemma_applied_wf_of(self, kind: PowerUpKind)
        requires
            self.wf(),
        ensures
            self.applied(kind).wf(),
    {
        lemma_compatible_powerups(self.powerups, kind);
    }

    /// A player wields one weapon at a time: once a weapon has been applied,
    /// it is among the powerups in effect, and it is the only weapon there.
    pub proof fn lemma_weapon_replaces_weapon(self, kind: PowerUpKind)
        requires
            self.wf(),
            kind.spec_is_weapon(),
        ensures
            has_kind(self.applied(kind).powerups, kind),
            is_only_weapon(self.applied(kind).powerups, kind),
    {
        let all = self.applied(kind).powerups;
        assert(all[all.len() - 1].kind == kind);
    }
}

impl Player {
    /// Whether the applied powerups exclude each other and are alive.
    pub(crate) fn powerups_are_valid(&self) -> (r: bool)
        ensures
            r == (powerups_exclusive(self.powerups@) && powerups_alive(self.powerups@)),
    {
        let mut i: usize = 0;
        while i < self.powerups.len()
            invariant
                i <= self.powerups.len(),
                powerups_alive(self.powerups@.take(i as int)),
                forall|a: int, b: int|
                    0 <= a < i && a < b < self.powerups.len() ==> !kinds_conflict(
                        (#[trigger] self.powerups@[a]).kind,
                        (#[trigger] self.powerups@[b]).kind,
                    ),
            decreases self.powerups.len() - i,
        {
            let p = self.powerups[i];
            let alive = !p.kind.is_instant() && match p.duration_left {
                Some(left) => left > 0,
                None => true,
            };
            if !alive {
                return false;
            }
            let mut k: usize = i + 1;
            while k < self.powerups.len()
                invariant
                    i < k <= self.powerups.len(),
                    p == self.powerups@[i as int],
                    forall|b: int|
                        i < b < k ==> !kinds_conflict(p.kind, (#[trigger] self.powerups@[b]).kind),
                decreases self.powerups.len() - k,
            {
                let q = self.powerups[k];
                if p.kind == q.kind || (p.kind.is_weapon() && q.kind.is_weapon()) {
                    return false;
                }
                k += 1;
            }
            i += 1;
        }
        assert(self.powerups@.take(i as int) =~= self.powerups@);
        true
    }

    /// Whether a powerup of the given kind is in effect.
    pub(crate) fn weapon_is_wielded(&self, kind: PowerUpKind) -> (r: bool)
        ensures
            r == has_kind(self@.powerups, kind),
    {
        let mut i: usize = 0;
        while i < self.powerups.len()
            invariant
                i <= self.powerups.len(),
                forall|j: int| 0 <= j < i ==> (#[trigger] self.powerups@[j]).kind != kind,
            decreases self.powerups.len() - i,
        {
            if self.powerups[i].kind == kind {
                return true;
            }
            i += 1;
        }
        false
    }

    /// Whether invincibility is in effect.
    pub fn invincibility_is_on(&self) -> (r: bool)
        ensures
            r == self@.invincible(),
    {
        self.weapon_is_wielded(PowerUpKind::Invincibility)
    }

    /// Whether the player is invisible to others.
    pub fn is_invisible(&self) -> (r: bool)
        ensures
            r == has_kind(self@.powerups, PowerUpKind::Invisible),
    {
        self.weapon_is_wielded(PowerUpKind::Invisible)
    }

    /// Ages the powerups in effect by `delta` microseconds and drops those
    /// whose time is up.
    pub fn manage_powerups(&mut self, delta: u16)
        requires
            old(self)@.wf(),
        ensures
            final(self)@ == old(self)@.with_aged_powerups(delta as int),
            final(self)@.wf(),
    {
        let ghost f = |p: AppliedPowerup| aged_powerup(p, delta as int);
        let ghost before = self.powerups@;
        proof {
            lemma_aged_powerups(before, delta as int);
        }
        let mut kept: Vec<AppliedPowerup> = Vec::new();
        let mut i: usize = 0;
        while i < self.powerups.len()
            invariant
                i <= self.powerups.len(),
                self.powerups@ == before,
                f == |p: AppliedPowerup| aged_powerup(p, delta as int),
                kept@ == before.take(i as int).filter_map(f),
            decreases self.powerups.len() - i,
        {
            proof {
                before.lemma_filter_map_take_succ(f, i as int);
            }
            let p = self.powerups[i];
            match p.duration_left {
                None => {
                    kept.push(p);
                },
                Some(left) => {
                    if left > delta as i64 {
                        let left = left - delta as i64;
                        kept.push(AppliedPowerup { kind: p.kind, duration_left: Some(left) });
                    }
                },
            }
            i += 1;
        }
        assert(before.take(i as int) =~= before);
        self.powerups = kept;
    }

    /// Lets a powerup of the given kind take effect.
    pub fn apply_powerup(&mut self, kind: PowerUpKind)
        requires
            old(self)@.wf(),
        ensures
            final(self)@ == old(self)@.applied(kind),
            final(self)@.wf(),
    {
        let ghost pred = |p: AppliedPowerup| !kinds_conflict(p.kind, kind);
        let ghost before = self.powerups@;
        proof {
            self@.lemma_applied_wf_of(kind);
        }
        let mut kept: Vec<AppliedPowerup> = Vec::new();
        let mut i: usize = 0;
        while i < self.powerups.len()
            invariant
                i <= self.powerups.len(),
                self.powerups@ == before,
                pred == |p: AppliedPowerup| !kinds_conflict(p.kind, kind),
                kept@ == before.take(i as int).filter(pred),
            decreases self.powerups.len() - i,
        {
            let p = self.powerups[i];
            proof {
                assert(before.take(i as int + 1) =~= before.take(i as int).push(p));
                before.take(i as int).lemma_filter_push(p, pred);
            }
            let conflict = p.kind == kind || (p.kind.is_weapon() && kind.is_weapon());
            if !conflict {
                kept.push(p);
            }
            i += 1;
        }
        assert(before.take(i as int) =~= before);
        self.powerups = kept;
        if kind == PowerUpKind::Health {
            let health = clamp(
                self.health as i64 + POWERUP_HEALTH_BOOST as i64,
                0,
                self.max_health() as i64,
            );
            self.health = health as i16;
        }
        if !kind.is_instant() {
            self.powerups.push(AppliedPowerup::new(kind));
        }
    }

    /// Lets the pending powerup, if there is one, take effect.
    pub fn trigger_powerup_if_available(&mut self)
        requires
            old(self)@.wf(),
        ensures
            final(self)@ == old(self)@.triggered(),
            final(self)@.wf(),
    {
        if let Some(powerup) = self.available_powerup {
            self.apply_powerup(powerup);
            self.available_powerup = None;
        }
    }

    /// Picks up a powerup of the given kind.
    pub fn add_powerup(&mut self, kind: PowerUpKind)
        requires
            old(self)@.wf(),
        ensures
            final(self)@ == old(self)@.picked_up(kind),
            final(self)@.wf(),
    {
        if kind.is_triggerable() {
            self.available_powerup = Some(kind);
        } else {
            self.apply_powerup(kind);
        }
    }
}

} // verus!
