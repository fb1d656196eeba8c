use vstd::prelude::*;

use crate::geometry::Vec2;
use crate::timer::{ticked, Timer, TimerView};

verus! {

/// Named colours that the game's entities are drawn with.
#[derive(Clone, Copy, Debug, PartialEq, Eq, Structural)]
pub enum Tint {
    Cyan,
    Green,
    Orange,
    Red,
    Purple,
    Yellow,
    White,
    Blue,
    Pink,
    Gray,
    Maroon,
}

/// The kinds of short-lived flashes drawn where something exploded or died.
#[derive(Clone, Copy, Debug, PartialEq, Eq, Structural)]
pub enum FlasherType {
    WeakShot,
    BigShot,
    HugeShot,
    HotShot,
    MiniShot,
    EnemyDeath,
    BumperDeath,
}

/// Initial radius (milli-units), colour and lifetime (microseconds) of a flash.
#[derive(Clone, Copy, Debug, PartialEq, Eq, Structural)]
pub struct FlasherStats {
    pub radius: i64,
    pub tint: Tint,
    pub lifetime: u64,
}

impl FlasherType {
    pub open spec fn stats_spec(self) -> FlasherStats {
        match self {
            FlasherType::WeakShot => FlasherStats { radius: 12_000, tint: Tint::Yellow, lifetime: 1_400_000 },
            FlasherType::BigShot => FlasherStats { radius: 20_000, tint: Tint::Orange, lifetime: 1_800_000 },
            FlasherType::HugeShot => FlasherStats { radius: 24_000, tint: Tint::White, lifetime: 2_400_000 },
            FlasherType::HotShot => FlasherStats { radius: 15_000, tint: Tint::Red, lifetime: 2_200_000 },
            FlasherType::MiniShot => FlasherStats { radius: 8_000, tint: Tint::Blue, lifetime: 1_200_000 },
            FlasherType::EnemyDeath => FlasherStats { radius: 18_000, tint: Tint::Pink, lifetime: 2_200_000 },
            FlasherType::BumperDeath => FlasherStats { radius: 10_000, tint: Tint::Gray, lifetime: 4_000_000 },
        }
    }

    pub fn get_stats(&self) -> (r: FlasherStats)
        ensures
            r == self.stats_spec(),
    {
        match self {
            FlasherType::WeakShot => FlasherStats { radius: 12_000, tint: Tint::Yellow, lifetime: 1_400_000 },
            FlasherType::BigShot => FlasherStats { radius: 20_000, tint: Tint::Orange, lifetime: 1_800_000 },
            FlasherType::HugeShot => FlasherStats { radius: 24_000, tint: Tint::White, lifetime: 2_400_000 },
            FlasherType::HotShot => FlasherStats { radius: 15_000, tint: Tint::Red, lifetime: 2_200_000 },
            FlasherType::MiniShot => FlasherStats { radius: 8_000, tint: Tint::Blue, lifetime: 1_200_000 },
            FlasherType::EnemyDeath => FlasherStats { radius: 18_000, tint: Tint::Pink, lifetime: 2_200_000 },
            FlasherType::BumperDeath => FlasherStats { radius: 10_000, tint: Tint::Gray, lifetime: 4_000_000 },
        }
    }
}

/// Radius of a flash of initial radius `radius` after `elapsed` of its
/// `lifetime`: from half the radius up to one and a half times it.
pub open spec fn grown_radius(radius: int, lifetime: int, elapsed: int) -> int {
    radius * (lifetime + 2 * elapsed) / (2 * lifetime)
}

/// A cosmetic flash that grows while it fades and then disappears.
#[derive(Clone, Copy)]
pub struct Flasher {
    pub location: Vec2,
    pub radius: i64,
    pub tint: Tint,
    pub timer: Timer,
}

impl Flasher {
    pub open spec fn wf(&self) -> bool {
        &&& self.timer.wf()
        &&& !self.timer@.repeating
        &&& self.timer@.duration > 0
        &&& 0 <= self.radius <= 1_000_000
    }

    /// A flash of type `t` at `location` that has just started.
    pub open spec fn is_new(f: Flasher, location: Vec2, t: FlasherType) -> bool {
        &&& f.wf()
        &&& f.location == location
        &&& f.radius == t.stats_spec().radius
        &&& f.tint == t.stats_spec().tint
        &&& f.timer@ == TimerView {
            duration: t.stats_spec().lifetime as nat,
            elapsed: 0,
            repeating: false,
            finished: false,
            times_finished: 0,
        }
    }

    pub fn new(location: Vec2, t: FlasherType) -> (r: Flasher)
        ensures
            Flasher::is_new(r, location, t),
            r.wf(),
            r.location == location,
            r.radius == t.stats_spec().radius,
            r.tint == t.stats_spec().tint,
            r.timer@.duration == t.stats_spec().lifetime,
            r.timer@.elapsed == 0,
            !r.timer@.finished,
    {
        let stats = t.get_stats();
        Flasher { location, radius: stats.radius, tint: stats.tint, timer: Timer::new(stats.lifetime, false) }
    }

    /// Advances the flash by `delta` microseconds.
    pub fn tick(&mut self, delta: u64)
        requires
            old(self).wf(),
        ensures
            final(self).wf(),
            final(self).timer@ == ticked(old(self).timer@, delta as nat),
            final(self).location == old(self).location,
            final(self).radius == old(self).radius,
            final(self).tint == old(self).tint,
    {
        self.timer.tick(delta);
    }

    /// The flash has used up its lifetime.
    pub fn done(&self) -> (r: bool)
        requires
            self.wf(),
        ensures
            r == (self.timer@.elapsed >= self.timer@.duration),
    {
        self.timer.elapsed() >= self.timer.duration()
    }

    /// Current radius: half the initial radius at the start, growing linearly
    /// to one and a half times it at the end, rounded down.
    pub fn current_radius(&self) -> (r: i64)
        requires
            self.wf(),
        ensures
            r == grown_radius(
                self.radius as int,
                self.timer@.duration as int,
                self.timer@.elapsed as int,
            ),
    {
        let d: u128 = self.timer.duration() as u128;
        let e: u128 = self.timer.elapsed() as u128;
        let rad: u128 = self.radius as u128;
        assert(rad * (d + 2 * e) <= 1_000_000 * (3 * d)) by (nonlinear_arith)
            requires
                0 <= rad <= 1_000_000,
                e <= d,
        ;
        assert(d <= u64::MAX);
        let r: u128 = rad * (d + 2 * e) / (2 * d);
        assert(r <= rad * (d + 2 * e) / (2 * d));
        assert(rad * (d + 2 * e) / (2 * d) <= 2_000_000) by (nonlinear_arith)
            requires
                rad * (d + 2 * e) <= 1_000_000 * (3 * d),
                d > 0,
        ;
        r as i64
    }
}

} // verus!
