//! Projectiles and beams: bullets, homing missiles and lasers.
use vstd::prelude::*;
use crate::hurricane::Hurricane;
use crate::math::Vec2;
use crate::player::{player_views, players_wf, Player, PlayerView};

pub mod bullet;
pub mod laser;
pub mod missile;

pub use self::bullet::{Bullet, BulletView};
pub use self::laser::{LaserBeam, LaserBeamView};
pub use self::missile::{Missile, MissileView};

verus! {

/// The lifetime of a projectile is counted up to here.
pub const LIFETIME_LIMIT: i64 = 1_000_000_000_000;

/// The wind at `position`: that of the hurricane, or none without one.
pub open spec fn wind_at(hurricane: Option<Hurricane>, position: Vec2) -> Vec2 {
    match hurricane {
        Some(h) => h.wind_at(position),
        None => Vec2 { x: 0, y: 0 },
    }
}

/// The hurricane, if there is one, is in a valid state.
pub open spec fn hurricane_wf(hurricane: Option<Hurricane>) -> bool {
    match hurricane {
        Some(h) => h.wf(),
        None => true,
    }
}

/// A projectile in flight: a bullet or a missile.
#[derive(Clone, Debug)]
pub enum ProjectileKind {
    Bullet(Bullet),
    Missile(Missile),
}

/// What a `ProjectileKind` holds.
pub enum ProjectileView {
    Bullet(BulletView),
    Missile(MissileView),
}

impl View for ProjectileKind {
    type V = ProjectileView;

    open spec fn view(&self) -> ProjectileView {
        match self {
            ProjectileKind::Bullet(b) => ProjectileView::Bullet(b@),
            ProjectileKind::Missile(m) => ProjectileView::Missile(m@),
        }
    }
}

impl ProjectileView {
    /// The projectile is in a valid state.
    pub open spec fn wf(self) -> bool {
        match self {
            ProjectileView::Bullet(b) => b.wf(),
            ProjectileView::Missile(m) => m.wf(),
        }
    }

    /// The projectile after `delta` more microseconds: a bullet is blown by
    /// the hurricane, a missile steers among the players.
    pub open spec fn updated(
        self,
        players: Seq<PlayerView>,
        hurricane: Option<Hurricane>,
        delta: int,
    ) -> ProjectileView {
        match self {
            ProjectileView::Bullet(b) => ProjectileView::Bullet(b.updated(hurricane, delta)),
            ProjectileView::Missile(m) => ProjectileView::Missile(m.updated(players, delta)),
        }
    }

    /// The projectile is spent.
    pub open spec fn is_done(self) -> bool {
        match self {
            ProjectileView::Bullet(b) => b.is_done(),
            ProjectileView::Missile(m) => m.is_done(),
        }
    }

    /// The projectile can hit: a bullet after its arming delay, a missile
    /// always.
    pub open spec fn is_armed(self) -> bool {
        match self {
            ProjectileView::Bullet(b) => b.is_armed(),
            ProjectileView::Missile(m) => true,
        }
    }

    /// The projectile's id.
    pub open spec fn id(self) -> u64 {
        match self {
            ProjectileView::Bullet(b) => b.id,
            ProjectileView::Missile(m) => m.id,
        }
    }

    /// The id of the player who fired the projectile.
    pub open spec fn shooter(self) -> u64 {
        match self {
            ProjectileView::Bullet(b) => b.owner,
            ProjectileView::Missile(m) => m.owner,
        }
    }

    /// The name of the player who fired the projectile.
    pub open spec fn shooter_name(self) -> Seq<char> {
        match self {
            ProjectileView::Bullet(b) => b.owner_name,
            ProjectileView::Missile(m) => m.owner_name,
        }
    }

    /// Where the projectile is.
    pub open spec fn position(self) -> Vec2 {
        match self {
            ProjectileView::Bullet(b) => b.position,
            ProjectileView::Missile(m) => m.position,
        }
    }

    /// The damage of a hit by the projectile.
    pub open spec fn damage(self) -> i16 {
        match self {
            ProjectileView::Bullet(b) => b.damage,
            ProjectileView::Missile(m) => m.damage,
        }
    }
}

impl ProjectileKind {
    /// Whether the projectile is in a valid state.
    pub fn is_valid(&self) -> (r: bool)
        ensures
            r == self@.wf(),
    {
        match self {
            ProjectileKind::Bullet(b) => b.is_valid(),
            ProjectileKind::Missile(m) => m.is_valid(),
        }
    }

    /// Moves the projectile on by `delta` microseconds.
    pub fn update(&mut self, players: &Vec<Player>, delta: u16, hurricane: &Option<Hurricane>)
        requires
            old(self)@.wf(),
            players_wf(player_views(players@)),
            hurricane_wf(*hurricane),
        ensures
            final(self)@ == old(self)@.updated(player_views(players@), *hurricane, delta as int),
            final(self)@.wf(),
    {
        match self {
            ProjectileKind::Bullet(b) => b.update(delta, hurricane),
            ProjectileKind::Missile(m) => m.update(players, delta),
        }
    }

    /// Whether the projectile is spent.
    pub fn is_done(&self) -> (r: bool)
        ensures
            r == self@.is_done(),
    {
        match self {
            ProjectileKind::Bullet(b) => b.is_done(),
            ProjectileKind::Missile(m) => m.is_done(),
        }
    }

    /// Whether the projectile can hit.
    pub fn is_armed(&self) -> (r: bool)
        ensures
            r == self@.is_armed(),
    {
        match self {
            ProjectileKind::Bullet(b) => b.is_armed(),
            ProjectileKind::Missile(m) => m.is_armed(),
        }
    }

    /// The projectile's id.
    pub fn get_id(&self) -> (r: u64)
        ensures
            r == self@.id(),
    {
        match self {
            ProjectileKind::Bullet(b) => b.get_id(),
            ProjectileKind::Missile(m) => m.get_id(),
        }
    }

    /// The id of the player who fired the projectile.
    pub fn get_shooter(&self) -> (r: u64)
        ensures
            r == self@.shooter(),
    {
        match self {
            ProjectileKind::Bullet(b) => b.get_shooter(),
            ProjectileKind::Missile(m) => m.get_shooter(),
        }
    }

    /// The name of the player who fired the projectile.
    pub fn get_shooter_name(&self) -> (r: String)
        ensures
            r@ == self@.shooter_name(),
    {
        match self {
            ProjectileKind::Bullet(b) => b.get_shooter_name(),
            ProjectileKind::Missile(m) => m.get_shooter_name(),
        }
    }

    /// Where the projectile is.
    pub fn get_position(&self) -> (r: Vec2)
        ensures
            r == self@.position(),
    {
        match self {
            ProjectileKind::Bullet(b) => b.get_position(),
            ProjectileKind::Missile(m) => m.get_position(),
        }
    }

    /// The damage of a hit by the projectile.
    pub fn get_damage(&self) -> (r: i16)
        ensures
            r == self@.damage(),
    {
        match self {
            ProjectileKind::Bullet(b) => b.get_damage(),
            ProjectileKind::Missile(m) => m.get_damage(),
        }
    }
}

} // verus!
