//! Powerups: their kinds, their rules, and the weighted choice of a kind.
use vstd::prelude::*;
use vstd::set_lib::{lemma_int_range, set_int_range};
use crate::math::Vec2;

verus! {

/// The kinds of powerup, in the order in which the weighted choice lists them.
#[derive(Clone, Copy, Debug, PartialEq, Eq, Hash, Structural)]
pub enum PowerUpKind {
    Afterburner,
    Laser,
    Health,
    Invincibility,
    Gun,
    Missile,
    SlowTime,
    Invisible,
}

/// The number of kinds.
pub const KIND_COUNT: usize = 8;

/// The kind at `index` in the order of the enum.
pub open spec fn kind_at(index: int) -> PowerUpKind {
    if index == 0 {
        PowerUpKind::Afterburner
    } else if index == 1 {
        PowerUpKind::Laser
    } else if index == 2 {
        PowerUpKind::Health
    } else if index == 3 {
        PowerUpKind::Invincibility
    } else if index == 4 {
        PowerUpKind::Gun
    } else if index == 5 {
        PowerUpKind::Missile
    } else if index == 6 {
        PowerUpKind::SlowTime
    } else {
        PowerUpKind::Invisible
    }
}

/// The sum of the likelihoods of the first `count` kinds.
pub open spec fn cumulative_likelihood(count: int) -> int
    decreases count,
{
    if count <= 0 {
        0
    } else {
        cumulative_likelihood(count - 1) + kind_at(count - 1).spec_get_likelihood()
    }
}

/// The sum of the likelihoods of all kinds.
pub open spec fn total_likelihood() -> int {
    cumulative_likelihood(KIND_COUNT as int)
}

/// A draw selects the kind at `index` when it falls into that kind's share of
/// the range below the total: the shares lie one behind the other, in the
/// order of the kinds, each as long as its kind is likely.
pub open spec fn draw_selects(draw: int, index: int) -> bool {
    0 <= index < KIND_COUNT && cumulative_likelihood(index) <= draw < cumulative_likelihood(
        index + 1,
    )
}

/// The index of the kind that `draw` selects.
pub open spec fn selected_index(draw: int) -> int {
    choose|index: int| draw_selects(draw, index)
}

/// The kind that `draw` selects.
pub open spec fn selected_kind(draw: int) -> PowerUpKind {
    kind_at(selected_index(draw))
}

/// The draws below the total that select the kind at `index`.
pub open spec fn draws_selecting(index: int) -> Set<int> {
    Set::new(|draw: int| draw_selects(draw, index))
}

/// `table` is the cumulative-weight table: its entry for a kind is the sum of
/// the likelihoods up to and including that kind.
pub open spec fn is_likelihood_table(table: Seq<u32>) -> bool {
    table.len() == KIND_COUNT && forall|i: int|
        0 <= i < KIND_COUNT ==> #[trigger] table[i] == cumulative_likelihood(i + 1)
}

/// The likelihoods add up to 400, and each kind's share ends where the next
/// begins.
pub proof fn lemma_cumulative_likelihoods()
    ensures
        cumulative_likelihood(0) == 0,
        cumulative_likelihood(1) == 70,
        cumulative_likelihood(2) == 130,
        cumulative_likelihood(3) == 170,
        cumulative_likelihood(4) == 200,
        cumulative_likelihood(5) == 270,
        cumulative_likelihood(6) == 330,
        cumulative_likelihood(7) == 340,
        cumulative_likelihood(8) == 400,
        total_likelihood() == 400,
{
    reveal_with_fuel(cumulative_likelihood, 10);
}

/// A draw selects at most one kind.
pub proof fn lemma_draw_selects_one(draw: int, first: int, second: int)
    requires
        draw_selects(draw, first),
        draw_selects(draw, second),
    ensures
        first == second,
{
    lemma_cumulative_likelihoods();
}

/// The weighted choice follows the likelihoods exactly: of the draws below
/// the total, as many select a kind as its likelihood says.
pub proof fn lemma_share_of_draws(index: int)
    requires
        0 <= index < KIND_COUNT,
    ensures
        draws_selecting(index).finite(),
        draws_selecting(index).len() == kind_at(index).spec_get_likelihood(),
        forall|draw: int| #[trigger]
            draws_selecting(index).contains(draw) ==> 0 <= draw < total_likelihood(),
{
    lemma_cumulative_likelihoods();
    let lo = cumulative_likelihood(index);
    let hi = cumulative_likelihood(index + 1);
    lemma_int_range(lo, hi);
    assert(draws_selecting(index) =~= set_int_range(lo, hi));
}

impl PowerUpKind {
    /// The time for which the kind lasts once applied; `None` for a kind that
    /// lasts until it is replaced, and for one that acts at once.
    pub open spec fn spec_starting_duration(&self) -> Option<i64> {
        match self {
            PowerUpKind::Laser => None,
            PowerUpKind::Afterburner => Some(5_000_000i64),
            PowerUpKind::Health => None,
            PowerUpKind::Invincibility => Some(7_000_000i64),
            PowerUpKind::Gun => None,
            PowerUpKind::Missile => None,
            PowerUpKind::SlowTime => Some(1_500_000i64),
            PowerUpKind::Invisible => Some(7_000_000i64),
        }
    }

    /// The kind is a weapon: a player wields one weapon at a time.
    pub open spec fn spec_is_weapon(&self) -> bool {
        *self == PowerUpKind::Laser || *self == PowerUpKind::Gun || *self == PowerUpKind::Missile
    }

    /// The kind acts once when it is applied and is never stored.
    pub open spec fn spec_is_instant(&self) -> bool {
        *self == PowerUpKind::Health
    }

    /// The kind waits in the player's slot until the player triggers it.
    pub open spec fn spec_is_triggerable(&self) -> bool {
        *self == PowerUpKind::Afterburner || *self == PowerUpKind::Invincibility || *self
            == PowerUpKind::SlowTime || self == PowerUpKind::Invisible
    }

    /// The weight of the kind in the choice of a new powerup.
    pub open spec fn spec_get_likelihood(&self) -> int {
        match self {
            PowerUpKind::Laser => 60,
            PowerUpKind::Afterburner => 70,
            PowerUpKind::Health => 40,
            PowerUpKind::Invincibility => 30,
            PowerUpKind::Gun => 70,
            PowerUpKind::Missile => 60,
            PowerUpKind::SlowTime => 10,
            PowerUpKind::Invisible => 60,
        }
    }

    /// The time for which the kind lasts once applied.
    #[verifier::when_used_as_spec(spec_starting_duration)]
    pub fn starting_duration(&self) -> (r: Option<i64>)
        ensures
            r == self.spec_starting_duration(),
    {
        match self {
            PowerUpKind::Laser => None,
            PowerUpKind::Afterburner => Some(5_000_000),
            PowerUpKind::Health => None,
            PowerUpKind::Invincibility => Some(7_000_000),
            PowerUpKind::Gun => None,
            PowerUpKind::Missile => None,
            PowerUpKind::SlowTime => Some(1_500_000),
            PowerUpKind::Invisible => Some(7_000_000),
        }
    }

    /// Whether the kind is a weapon.
    #[verifier::when_used_as_spec(spec_is_weapon)]
    pub fn is_weapon(&self) -> (r: bool)
        ensures
            r == self.spec_is_weapon(),
    {
        match self {
            PowerUpKind::Laser => true,
            PowerUpKind::Afterburner => false,
            PowerUpKind::Health => false,
            PowerUpKind::Invincibility => false,
            PowerUpKind::Gun => true,
            PowerUpKind::Missile => true,
            PowerUpKind::SlowTime => false,
            PowerUpKind::Invisible => false,
        }
    }

    /// Whether the kind acts at once.
    #[verifier::when_used_as_spec(spec_is_instant)]
    pub fn is_instant(&self) -> (r: bool)
        ensures
            r == self.spec_is_instant(),
    {
        match self {
            PowerUpKind::Laser => false,
            PowerUpKind::Afterburner => false,
            PowerUpKind::Health => true,
            PowerUpKind::Invincibility => false,
            PowerUpKind::Gun => false,
            PowerUpKind::Missile => false,
            PowerUpKind::SlowTime => false,
            PowerUpKind::Invisible => false,
        }
    }

    /// Whether the kind waits for the player to trigger it.
    #[verifier::when_used_as_spec(spec_is_triggerable)]
    pub fn is_triggerable(&self) -> (r: bool)
        ensures
            r == self.spec_is_triggerable(),
    {
        match self {
            PowerUpKind::Laser => false,
            PowerUpKind::Afterburner => true,
            PowerUpKind::Health => false,
            PowerUpKind::Invincibility => true,
            PowerUpKind::Gun => false,
            PowerUpKind::Missile => false,
            PowerUpKind::SlowTime => true,
            PowerUpKind::Invisible => true,
        }
    }

    /// The weight of the kind in the choice of a new powerup.
    pub fn get_likelihood(&self) -> (r: i32)
        ensures
            r == self.spec_get_likelihood(),
    {
        match self {
            PowerUpKind::Laser => 60,
            PowerUpKind::Afterburner => 70,
            PowerUpKind::Health => 40,
            PowerUpKind::Invincibility => 30,
            PowerUpKind::Gun => 70,
            PowerUpKind::Missile => 60,
            PowerUpKind::SlowTime => 10,
            PowerUpKind::Invisible => 60,
        }
    }

    /// The kind at `index` in the order of the enum.
    pub fn nth(index: usize) -> (r: PowerUpKind)
        requires
            index < KIND_COUNT,
        ensures
            r == kind_at(index as int),
    {
        if index == 0 {
            PowerUpKind::Afterburner
        } else if index == 1 {
            PowerUpKind::Laser
        } else if index == 2 {
            PowerUpKind::Health
        } else if index == 3 {
            PowerUpKind::Invincibility
        } else if index == 4 {
            PowerUpKind::Gun
        } else if index == 5 {
            PowerUpKind::Missile
        } else if index == 6 {
            PowerUpKind::SlowTime
        } else {
            PowerUpKind::Invisible
        }
    }

    /// The cumulative-weight table of the kinds, built from their
    /// likelihoods.
    pub fn likelihood_table() -> (table: Vec<u32>)
        ensures
            is_likelihood_table(table@),
            table@[KIND_COUNT - 1] == total_likelihood(),
    {
        let mut table: Vec<u32> = Vec::new();
        let mut sum: u32 = 0;
        let mut i: usize = 0;
        while i < KIND_COUNT
            invariant
                i <= KIND_COUNT,
                table@.len() == i,
                sum == cumulative_likelihood(i as int),
                sum <= 70 * i,
                forall|j: int| 0 <= j < i ==> #[trigger] table@[j] == cumulative_likelihood(j + 1),
            decreases KIND_COUNT - i,
        {
            let weight = Self::nth(i).get_likelihood();
            sum = sum + weight as u32;
            table.push(sum);
            i += 1;
        }
        table
    }

    /// The kind that `draw` selects from the cumulative-weight table.
    pub fn select(table: &Vec<u32>, draw: u32) -> (r: PowerUpKind)
        requires
            is_likelihood_table(table@),
            draw < total_likelihood(),
        ensures
            r == selected_kind(draw as int),
            draw_selects(draw as int, selected_index(draw as int)),
    {
        let mut i: usize = 0;
        while i < KIND_COUNT - 1 && draw >= table[i]
            invariant
                i < KIND_COUNT,
                is_likelihood_table(table@),
                draw < total_likelihood(),
                cumulative_likelihood(i as int) <= draw,
            decreases KIND_COUNT - i,
        {
            i += 1;
        }
        proof {
            lemma_draw_selects_one(draw as int, i as int, selected_index(draw as int));
        }
        Self::nth(i)
    }
}

/// A powerup that lies in the world until a player picks it up.
#[derive(Clone, Copy, Debug, PartialEq, Eq, Structural)]
pub struct PowerUp {
    pub kind: PowerUpKind,
    pub position: Vec2,
}

impl PowerUp {
    /// A powerup of the given kind at `position`.
    pub fn new(kind: PowerUpKind, position: Vec2) -> (r: PowerUp)
        ensures
            r == (PowerUp { kind, position }),
    {
        PowerUp { kind, position }
    }
}

/// A powerup in effect on a player, with the time it has left; `None` keeps
/// it until it is replaced.
#[derive(Clone, Copy, Debug, PartialEq, Eq, Structural)]
pub struct AppliedPowerup {
    pub kind: PowerUpKind,
    pub duration_left: Option<i64>,
}

impl AppliedPowerup {
    /// The powerup of the given kind, freshly applied.
    pub fn new(kind: PowerUpKind) -> (r: AppliedPowerup)
        ensures
            r == (AppliedPowerup { kind, duration_left: kind.spec_starting_duration() }),
    {
        let duration_left = kind.starting_duration();
        AppliedPowerup { kind, duration_left }
    }
}

} // verus!
