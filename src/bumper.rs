use vstd::prelude::*;

use crate::flasher::Tint;
use crate::geometry::Vec2;
use crate::random::sample_weighted;

verus! {

/// Density of every bumper's material.
pub const DENSITY: u64 = 100;

/// Where a bumper floats before the player has placed one.
pub const PARK_X: i64 = 500_000;

pub const PARK_Y: i64 = 200_000;

/// The kinds of bumper.
#[derive(Clone, Copy, Debug, PartialEq, Eq, Structural)]
pub enum BumperType {
    Standard,
    Long,
    Bounciest,
    Hard,
    Wood,
}

/// Half length (milli-units), hits it takes, restitution and friction
/// (thousandths) and colour of a bumper type.
#[derive(Clone, Copy, Debug, PartialEq, Eq, Structural)]
pub struct BumperStats {
    pub half_length: i64,
    pub hits: i64,
    pub restitution: u64,
    pub friction: u64,
    pub tint: Tint,
}

impl BumperType {
    pub open spec fn stats_spec(self) -> BumperStats {
        match self {
            BumperType::Standard => BumperStats { half_length: 35_000, hits: 30, restitution: 1_000, friction: 100, tint: Tint::Cyan },
            BumperType::Long => BumperStats { half_length: 50_000, hits: 30, restitution: 950, friction: 200, tint: Tint::Blue },
            BumperType::Bounciest => BumperStats { half_length: 40_000, hits: 35, restitution: 1_300, friction: 10, tint: Tint::Pink },
            BumperType::Hard => BumperStats { half_length: 35_000, hits: 60, restitution: 900, friction: 200, tint: Tint::Red },
            BumperType::Wood => BumperStats { half_length: 40_000, hits: 50, restitution: 100, friction: 500, tint: Tint::Maroon },
        }
    }

    pub fn get_stats(&self) -> (r: BumperStats)
        ensures
            r == self.stats_spec(),
    {
        match self {
            BumperType::Standard => BumperStats { half_length: 35_000, hits: 30, restitution: 1_000, friction: 100, tint: Tint::Cyan },
            BumperType::Long => BumperStats { half_length: 50_000, hits: 30, restitution: 950, friction: 200, tint: Tint::Blue },
            BumperType::Bounciest => BumperStats { half_length: 40_000, hits: 35, restitution: 1_300, friction: 10, tint: Tint::Pink },
            BumperType::Hard => BumperStats { half_length: 35_000, hits: 60, restitution: 900, friction: 200, tint: Tint::Red },
            BumperType::Wood => BumperStats { half_length: 40_000, hits: 50, restitution: 100, friction: 500, tint: Tint::Maroon },
        }
    }

    pub open spec fn from_index_spec(i: int) -> BumperType {
        if i == 0 {
            BumperType::Standard
        } else if i == 1 {
            BumperType::Long
        } else if i == 2 {
            BumperType::Bounciest
        } else if i == 3 {
            BumperType::Hard
        } else {
            BumperType::Wood
        }
    }

    pub fn from_index(i: usize) -> (r: BumperType)
        ensures
            r == BumperType::from_index_spec(i as int),
    {
        if i == 0 {
            BumperType::Standard
        } else if i == 1 {
            BumperType::Long
        } else if i == 2 {
            BumperType::Bounciest
        } else if i == 3 {
            BumperType::Hard
        } else {
            BumperType::Wood
        }
    }

    /// A type drawn with equal chances for all.
    pub fn random() -> (r: BumperType) {
        let weights: Vec<u64> = vec![1, 1, 1, 1, 1];
        assert(weights@ == seq![1u64, 1, 1, 1, 1]);
        reveal_with_fuel(crate::random::weight_prefix, 6);
        let i = sample_weighted(&weights);
        BumperType::from_index(i)
    }
}

/// Life after one more hit, stopping at the smallest `i64`.
pub open spec fn worn(life: i64) -> i64 {
    if life > i64::MIN {
        (life - 1) as i64
    } else {
        life
    }
}

/// Where and at what angle (thousandths of a radian) a bumper was fixed.
#[derive(Clone, Copy, Debug, PartialEq, Eq, Structural)]
pub struct Placement {
    pub position: Vec2,
    pub angle: i64,
}

/// A deflector placed by the player: it floats until fixed, and then wears
/// down by one hit point per deflection.
#[derive(Clone, Copy)]
pub struct Bumper {
    pub life: i64,
    pub initial_life: i64,
    pub half_length: i64,
    pub restitution: u64,
    pub friction: u64,
    pub tint: Tint,
    pub placement: Option<Placement>,
}

impl Bumper {
    /// A new floating bumper with the row of type `t`: full life, its
    /// length, material and colour.
    pub open spec fn fresh(b: Bumper, t: BumperType) -> bool {
        &&& b.life == t.stats_spec().hits
        &&& b.initial_life == t.stats_spec().hits
        &&& b.half_length == t.stats_spec().half_length
        &&& b.restitution == t.stats_spec().restitution
        &&& b.friction == t.stats_spec().friction
        &&& b.tint == t.stats_spec().tint
        &&& b.placement.is_none()
    }

    /// A floating bumper of type `t`.
    pub fn new(t: BumperType) -> (r: Bumper)
        ensures
            r.life == t.stats_spec().hits,
            r.initial_life == t.stats_spec().hits,
            r.half_length == t.stats_spec().half_length,
            r.restitution == t.stats_spec().restitution,
            r.friction == t.stats_spec().friction,
            r.tint == t.stats_spec().tint,
            r.placement.is_none(),
            Bumper::fresh(r, t),
    {
        let stats = t.get_stats();
        Bumper {
            life: stats.hits,
            initial_life: stats.hits,
            half_length: stats.half_length,
            restitution: stats.restitution,
            friction: stats.friction,
            tint: stats.tint,
            placement: None,
        }
    }

    /// A floating bumper of a type drawn at random.
    pub fn create_random() -> (r: Bumper)
        ensures
            r.placement.is_none(),
            r.life == r.initial_life,
            exists|t: BumperType| Bumper::fresh(r, t),
    {
        let t = BumperType::random();
        let r = Bumper::new(t);
        assert(Bumper::fresh(r, t));
        r
    }

    /// Loses one hit point (life stops at the smallest `i64`).
    pub fn take_damage(&mut self)
        ensures
            *final(self) == (Bumper { life: worn(old(self).life), ..*old(self) }),
    {
        if self.life > i64::MIN {
            self.life = self.life - 1;
        }
    }

    /// Fixes the bumper at `position` with the given angle.
    pub fn fix(&mut self, position: Vec2, angle: i64)
        ensures
            *final(self) == (Bumper { placement: Some(Placement { position, angle }), ..*old(self) }),
    {
        self.placement = Some(Placement { position, angle });
    }

    /// Where to draw the bumper, with its colour: where it was fixed, or
    /// grey at the parking spot while it floats.
    pub fn appearance(&self) -> (r: (Tint, Placement))
        ensures
            self.placement.is_some() ==> r == (self.tint, self.placement.unwrap()),
            self.placement.is_none() ==> r == (Tint::Gray, Placement {
                position: Vec2 { x: PARK_X, y: PARK_Y },
                angle: 0,
            }),
    {
        match self.placement {
            Some(p) => (self.tint, p),
            None => (Tint::Gray, Placement { position: Vec2 { x: PARK_X, y: PARK_Y }, angle: 0 }),
        }
    }
}

} // verus!
