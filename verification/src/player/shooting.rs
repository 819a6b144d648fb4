//! A player's weapons: the trigger, the cooldown and the charge of the laser.
use vstd::prelude::*;
use crate::arith::div_trunc;
use crate::constants::{
    BULLET_START,
    BULLET_VELOCITY,
    LASER_DAMAGE,
    LASER_FIRE_TIME,
    PLAYER_COOLDOWN,
    QUARTER_TURN,
    SCALE,
};
use crate::math::Vec2;
use crate::powerups::PowerUpKind;
use crate::projectiles::{
    Bullet,
    BulletView,
    LaserBeam,
    LaserBeamView,
    Missile,
    MissileView,
    ProjectileKind,
    ProjectileView,
};
use crate::random::random_below;
use crate::player::effects::has_kind;
use crate::player::{Player, PlayerView};

verus! {

impl PlayerView {
    /// The player after `delta` more microseconds of cooling and charging:
    /// the cooldown runs down to zero; a charging laser fires in the tick in
    /// which its time falls below zero, and the charge is then over.
    pub open spec fn charged(self, delta: int) -> PlayerView {
        let fires = match self.laser_charge_time {
            Some(t) => t - delta < 0,
            None => false,
        };
        PlayerView {
            cooldown: if self.cooldown - delta > 0 {
                (self.cooldown - delta) as i64
            } else {
                0
            },
            lasering_this_frame: fires,
            laser_charge_time: match self.laser_charge_time {
                Some(t) => if fires {
                    None
                } else {
                    Some((t - delta) as i64)
                },
                None => None,
            },
            ..self
        }
    }

    /// Where a projectile leaves the plane: just ahead of the nose.
    pub open spec fn muzzle(self) -> Vec2 {
        let ahead = Vec2::direction(self.nose(), BULLET_START as int);
        Vec2 { x: (self.position.x + ahead.x) as i64, y: (self.position.y + ahead.y) as i64 }
    }

    /// The velocity of a bullet that leaves the plane: the plane's own
    /// velocity plus the bullet's speed along the nose.
    pub open spec fn bullet_velocity(self) -> Vec2 {
        let own = self.forward_velocity();
        let along = Vec2::direction(self.nose(), BULLET_VELOCITY as int);
        Vec2 { x: (own.x + along.x) as i64, y: (own.y + along.y) as i64 }
    }

    /// What pulling the trigger does, where a projectile that leaves the
    /// plane gets the id `id`: the player afterwards, the projectile if one
    /// leaves, and whether a laser has started to charge.
    ///
    /// Under invincibility nothing happens. A player with a laser that is not
    /// charging starts to charge it. Any other player without a laser drops
    /// a charge that may be left; then, if the cooldown is over, a gun fires
    /// a bullet and a missile launcher a missile, and the cooldown starts
    /// again.
    pub open spec fn shot(self, id: u64) -> (PlayerView, Option<ProjectileView>, bool) {
        if self.invincible() {
            (self, None, false)
        } else if has_kind(self.powerups, PowerUpKind::Laser) && self.laser_charge_time is None {
            (PlayerView { laser_charge_time: Some(LASER_FIRE_TIME), ..self }, None, true)
        } else {
            let idle = if has_kind(self.powerups, PowerUpKind::Laser) {
                self
            } else {
                PlayerView { laser_charge_time: None, ..self }
            };
            if self.cooldown > 0 {
                (idle, None, false)
            } else if has_kind(self.powerups, PowerUpKind::Gun) {
                (
                    PlayerView {
                        cooldown: PLAYER_COOLDOWN,
                        speed: self.throttle() as i64,
                        ..idle
                    },
                    Some(
                        ProjectileView::Bullet(
                            BulletView::fired(
                                id,
                                self.muzzle(),
                                self.bullet_velocity(),
                                self.planetype.spec_firepower(),
                                self.id,
                                self.name,
                            ),
                        ),
                    ),
                    false,
                )
            } else if has_kind(self.powerups, PowerUpKind::Missile) {
                (
                    PlayerView { cooldown: PLAYER_COOLDOWN, ..idle },
                    Some(
                        ProjectileView::Missile(
                            MissileView::launched(
                                id,
                                self.muzzle(),
                                self.nose() as i64,
                                self.planetype.spec_firepower(),
                                self.id,
                                self.speed,
                                self.name,
                            ),
                        ),
                    ),
                    false,
                )
            } else {
                (idle, None, false)
            }
        }
    }
}

impl Player {
    /// Runs the cooldown and the laser charge on by `delta` microseconds.
    pub(crate) fn update_laser_charge(&mut self, delta: u16)
        requires
            old(self)@.wf(),
        ensures
            final(self)@ == old(self)@.charged(delta as int),
            final(self)@.wf(),
    {
        let cooldown = self.cooldown - delta as i64;
        self.cooldown = if cooldown > 0 {
            cooldown
        } else {
            0
        };
        match self.laser_charge_time {
            Some(t) => {
                let left = t - delta as i64;
                if left < 0 {
                    self.lasering_this_frame = true;
                    self.laser_charge_time = None;
                } else {
                    self.lasering_this_frame = false;
                    self.laser_charge_time = Some(left);
                }
            },
            None => {
                self.lasering_this_frame = false;
            },
        }
    }

    /// Pulls the trigger; a projectile that leaves the plane gets the id
    /// `id`. Returns the projectile, if one leaves, and whether a laser has
    /// started to charge.
    pub fn shoot_with_id(&mut self, id: u64) -> (r: (Option<ProjectileKind>, bool))
        requires
            old(self)@.wf(),
        ensures
            final(self)@ == old(self)@.shot(id).0,
            final(self)@.wf(),
            match r.0 {
                Some(p) => old(self)@.shot(id).1 == Some(p@) && p@.wf(),
                None => old(self)@.shot(id).1 is None,
            },
            r.1 == old(self)@.shot(id).2,
    {
        if self.invincibility_is_on() {
            return (None, false);
        }
        if self.weapon_is_wielded(PowerUpKind::Laser) {
            if self.laser_charge_time.is_none() {
                self.laser_charge_time = Some(LASER_FIRE_TIME);
                return (None, true);
            }
        } else {
            self.laser_charge_time = None;
        }
        if self.cooldown > 0 {
            return (None, false);
        }
        let dir = self.rotation - QUARTER_TURN;
        if self.weapon_is_wielded(PowerUpKind::Gun) {
            self.cooldown = PLAYER_COOLDOWN;
            let ahead = Vec2::from_direction(dir, BULLET_START);
            let along = Vec2::from_direction(dir, BULLET_VELOCITY);
            let own = self.final_velocity();
            let new_bullet = Bullet::with_id(
                id,
                self.position.add(ahead),
                own.add(along),
                self.planetype.firepower(),
                self.id,
                self.name.clone(),
            );
            (Some(ProjectileKind::Bullet(new_bullet)), false)
        } else if self.weapon_is_wielded(PowerUpKind::Missile) {
            self.cooldown = PLAYER_COOLDOWN;
            let ahead = Vec2::from_direction(dir, BULLET_START);
            let new_missile = Missile::with_id(
                id,
                self.position.add(ahead),
                dir,
                self.planetype.firepower(),
                self.id,
                self.speed,
                self.name.clone(),
            );
            (Some(ProjectileKind::Missile(new_missile)), false)
        } else {
            (None, false)
        }
    }

    /// Pulls the trigger; a projectile that leaves the plane gets an id drawn
    /// at random. Returns the projectile, if one leaves, and whether a laser
    /// has started to charge.
    pub fn shoot(&mut self) -> (r: (Option<ProjectileKind>, bool))
        requires
            old(self)@.wf(),
        ensures
            final(self)@ == old(self)@.shot(0).0,
            final(self)@.wf(),
            match r.0 {
                Some(p) => old(self)@.shot(p@.id()).1 == Some(p@) && p@.wf(),
                None => old(self)@.shot(0).1 is None,
            },
            r.1 == old(self)@.shot(0).2,
    {
        let id = random_below(u64::MAX);
        self.shoot_with_id(id)
    }

    /// How far the laser has charged, in thousandths; `None` while it does
    /// not charge.
    pub fn laser_charge_progress(&self) -> (r: Option<i64>)
        requires
            self@.wf(),
        ensures
            r == match self.laser_charge_time {
                Some(t) => Some((SCALE - div_trunc(t * SCALE, LASER_FIRE_TIME as int)) as i64),
                None => None,
            },
    {
        match self.laser_charge_time {
            Some(t) => Some(SCALE - t * SCALE / LASER_FIRE_TIME),
            None => None,
        }
    }

    /// The beam that the player fires in this tick, if the laser has
    /// finished charging in it.
    pub fn maybe_get_laser(&self) -> (r: Option<LaserBeam>)
        ensures
            match r {
                Some(beam) => self.lasering_this_frame && beam@ == LaserBeamView::fired(
                    self.position,
                    self.rotation,
                    LASER_DAMAGE,
                    self.id,
                    self.name@,
                ) && beam@.wf(),
                None => !self.lasering_this_frame,
            },
    {
        if self.lasering_this_frame {
            Some(
                LaserBeam::new(
                    self.position,
                    self.rotation,
                    LASER_DAMAGE,
                    self.id,
                    self.name.clone(),
                ),
            )
        } else {
            None
        }
    }
}

} // verus!
