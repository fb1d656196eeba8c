use vstd::prelude::*;

use crate::ballistics::{
    launch_velocity, launch_velocity_spec, GRAVITY, VERTICAL_SPEED_MAX, VERTICAL_SPEED_MIN,
};
use crate::explosion::{Explosion, ExplosionType};
use crate::geometry::Vec2;
use crate::random::draw_in;
use crate::timer::{ticked, Timer, TimerView};

verus! {

/// Horizontal position that enemies aim at: the tower, in milli-units.
pub const PLAYER_POSITION: i64 = 500_000;

/// Longest flight of a projectile before it blows up, in microseconds.
pub const MAX_TTL: u64 = 8_000_000;

/// What touching the ground does to a projectile.
#[derive(Clone, Copy, Debug, PartialEq, Eq, Structural)]
pub enum LandEffect {
    Bounce,
    Explode,
}

/// The kinds of projectile that enemies fire.
#[derive(Clone, Copy, Debug, PartialEq, Eq, Structural)]
pub enum ProjectileType {
    WeakShot,
    BigShot,
    HugeShot,
    HotShot,
    MiniShot,
}

/// Radius (milli-units), bounce budget, explosion budget, shape and
/// explosion of a projectile type.
#[derive(Clone, Copy, Debug, PartialEq, Eq, Structural)]
pub struct ProjectileStats {
    pub radius: i64,
    pub bounces: usize,
    pub explosions: usize,
    pub square: bool,
    pub explosion: ExplosionType,
}

impl ProjectileType {
    pub open spec fn stats_spec(self) -> ProjectileStats {
        match self {
            ProjectileType::WeakShot => ProjectileStats { radius: 3_400, bounces: 1, explosions: 1, square: false, explosion: ExplosionType::WeakShot },
            ProjectileType::BigShot => ProjectileStats { radius: 3_600, bounces: 2, explosions: 1, square: false, explosion: ExplosionType::BigShot },
            ProjectileType::HugeShot => ProjectileStats { radius: 3_800, bounces: 3, explosions: 1, square: false, explosion: ExplosionType::HugeShot },
            ProjectileType::HotShot => ProjectileStats { radius: 3_500, bounces: 4, explosions: 2, square: false, explosion: ExplosionType::HotShot },
            ProjectileType::MiniShot => ProjectileStats { radius: 3_000, bounces: 4, explosions: 4, square: false, explosion: ExplosionType::MiniShot },
        }
    }

    pub fn get_stats(&self) -> (r: ProjectileStats)
        ensures
            r == self.stats_spec(),
    {
        match self {
            ProjectileType::WeakShot => ProjectileStats { radius: 3_400, bounces: 1, explosions: 1, square: false, explosion: ExplosionType::WeakShot },
            ProjectileType::BigShot => ProjectileStats { radius: 3_600, bounces: 2, explosions: 1, square: false, explosion: ExplosionType::BigShot },
            ProjectileType::HugeShot => ProjectileStats { radius: 3_800, bounces: 3, explosions: 1, square: false, explosion: ExplosionType::HugeShot },
            ProjectileType::HotShot => ProjectileStats { radius: 3_500, bounces: 4, explosions: 2, square: false, explosion: ExplosionType::HotShot },
            ProjectileType::MiniShot => ProjectileStats { radius: 3_000, bounces: 4, explosions: 4, square: false, explosion: ExplosionType::MiniShot },
        }
    }
}

/// What a projectile holds: where it was fired from, its size, the bounces
/// and explosions it has left, what its explosions are, and its lifetime.
pub struct ProjectileView {
    pub origin: Vec2,
    pub radius: int,
    pub bounces: nat,
    pub explosions: nat,
    pub explosion_type: ExplosionType,
    pub timer: TimerView,
}

/// A lobbed, bouncing body that explodes when it lands for good, when it
/// hits a trigger, or when its lifetime runs out.
#[derive(Clone, Copy)]
pub struct Projectile {
    origin: Vec2,
    radius: i64,
    bounces: usize,
    explosions: usize,
    explosion_type: ExplosionType,
    timer: Timer,
}

impl View for Projectile {
    type V = ProjectileView;

    closed spec fn view(&self) -> ProjectileView {
        ProjectileView {
            origin: self.origin,
            radius: self.radius as int,
            bounces: self.bounces as nat,
            explosions: self.explosions as nat,
            explosion_type: self.explosion_type,
            timer: self.timer@,
        }
    }
}

impl Projectile {
    /// Well-formed: a one-shot lifetime of the full length that has not run
    /// past it, fired from inside the world.
    pub open spec fn wf(&self) -> bool {
        &&& self@.timer.elapsed <= self@.timer.duration
        &&& !self@.timer.repeating
        &&& self@.timer.duration == MAX_TTL
        &&& self@.origin.in_world()
    }

    /// A projectile of type `t` just fired from `origin`: the type's size,
    /// budgets and explosion, and a lifetime that has not started.
    pub open spec fn fresh(v: ProjectileView, origin: Vec2, t: ProjectileType) -> bool {
        &&& v.origin == origin
        &&& v.radius == t.stats_spec().radius
        &&& v.bounces == t.stats_spec().bounces
        &&& v.explosions == t.stats_spec().explosions
        &&& v.explosion_type == t.stats_spec().explosion
        &&& v.timer == TimerView {
            duration: MAX_TTL as nat,
            elapsed: 0,
            repeating: false,
            finished: false,
            times_finished: 0,
        }
    }

    /// A projectile of type `t` fired from `origin`.
    pub fn new(origin: Vec2, t: ProjectileType) -> (r: Projectile)
        requires
            origin.in_world(),
        ensures
            r.wf(),
            Projectile::fresh(r@, origin, t),
            r@.origin == origin,
            r@.radius == t.stats_spec().radius,
            r@.bounces == t.stats_spec().bounces,
            r@.explosions == t.stats_spec().explosions,
            r@.explosion_type == t.stats_spec().explosion,
            r@.timer == (TimerView {
                duration: MAX_TTL as nat,
                elapsed: 0,
                repeating: false,
                finished: false,
                times_finished: 0,
            }),
    {
        let stats = t.get_stats();
        Projectile {
            origin,
            radius: stats.radius,
            bounces: stats.bounces,
            explosions: stats.explosions,
            explosion_type: stats.explosion,
            timer: Timer::new(MAX_TTL, false),
        }
    }

    pub fn origin(&self) -> (r: Vec2)
        ensures
            r == self@.origin,
    {
        self.origin
    }

    pub fn radius(&self) -> (r: i64)
        ensures
            r == self@.radius,
    {
        self.radius
    }

    pub fn bounces(&self) -> (r: usize)
        ensures
            r == self@.bounces,
    {
        self.bounces
    }

    pub fn explosions(&self) -> (r: usize)
        ensures
            r == self@.explosions,
    {
        self.explosions
    }

    pub fn explosion_type(&self) -> (r: ExplosionType)
        ensures
            r == self@.explosion_type,
    {
        self.explosion_type
    }

    /// The launch velocity towards the tower for a given upward speed.
    pub fn launch_velocity(&self, vertical_speed: u64) -> (r: Vec2)
        requires
            self.wf(),
            vertical_speed <= VERTICAL_SPEED_MAX,
        ensures
            (r.x as int, r.y as int) == launch_velocity_spec(
                self@.origin,
                PLAYER_POSITION as int,
                GRAVITY as int,
                vertical_speed as int,
            ),
    {
        launch_velocity(self.origin, PLAYER_POSITION, GRAVITY, vertical_speed as i64)
    }

    /// The launch velocity towards the tower, with an upward speed drawn at
    /// random from the configured range.
    pub fn calculate_velocity(&self) -> (r: Vec2)
        requires
            self.wf(),
        ensures
            VERTICAL_SPEED_MIN <= r.y < VERTICAL_SPEED_MAX,
            (r.x as int, r.y as int) == launch_velocity_spec(
                self@.origin,
                PLAYER_POSITION as int,
                GRAVITY as int,
                r.y as int,
            ),
    {
        let v = draw_in(VERTICAL_SPEED_MIN, VERTICAL_SPEED_MAX);
        self.launch_velocity(v)
    }

    /// The projectile touched the ground: it bounces while it has bounces
    /// left, spending one, and explodes otherwise.
    pub fn touch_ground(&mut self) -> (r: LandEffect)
        requires
            old(self).wf(),
        ensures
            final(self).wf(),
            old(self)@.bounces == 0 ==> r == LandEffect::Explode && final(self)@ == old(self)@,
            old(self)@.bounces > 0 ==> r == LandEffect::Bounce && final(self)@ == (ProjectileView {
                bounces: (old(self)@.bounces - 1) as nat,
                ..old(self)@
            }),
            final(self)@.bounces <= old(self)@.bounces,
            final(self)@.explosions == old(self)@.explosions,
    {
        if self.bounces == 0 {
            LandEffect::Explode
        } else {
            self.bounces = self.bounces - 1;
            LandEffect::Bounce
        }
    }

    /// Spends one explosion, if any is left, and returns it at `location`.
    pub fn explode(&mut self, location: Vec2) -> (r: Option<Explosion>)
        requires
            old(self).wf(),
            location.in_world(),
        ensures
            final(self).wf(),
            old(self)@.explosions > 0 ==> r == Some(
                Explosion::of_type(location, old(self)@.explosion_type),
            ) && final(self)@ == (ProjectileView {
                explosions: (old(self)@.explosions - 1) as nat,
                ..old(self)@
            }),
            old(self)@.explosions == 0 ==> r.is_none() && final(self)@ == old(self)@,
            final(self)@.bounces == old(self)@.bounces,
            final(self)@.explosions <= old(self)@.explosions,
            r.is_some() ==> r.unwrap().wf(),
    {
        if self.explosions > 0 {
            self.explosions = self.explosions - 1;
            Some(Explosion::new(location, self.explosion_type))
        } else {
            None
        }
    }

    /// The projectile has no explosion left.
    pub fn done(&self) -> (r: bool)
        ensures
            r == (self@.explosions == 0),
    {
        self.explosions == 0
    }

    /// Ages the projectile by `delta` microseconds and tells whether its
    /// lifetime has run out; if so, at most one explosion is left to it, so
    /// that the next `explode` is its last.
    pub fn run_out(&mut self, delta: u64) -> (r: bool)
        requires
            old(self).wf(),
        ensures
            final(self).wf(),
            r == ticked(old(self)@.timer, delta as nat).finished,
            final(self)@ == (ProjectileView {
                timer: ticked(old(self)@.timer, delta as nat),
                explosions: if r && old(self)@.explosions > 1 {
                    1
                } else {
                    old(self)@.explosions
                },
                ..old(self)@
            }),
            final(self)@.explosions <= old(self)@.explosions,
    {
        self.timer.tick(delta);
        if self.timer.finished() {
            if self.explosions > 1 {
                self.explosions = 1;
            }
            true
        } else {
            false
        }
    }

    /// Ages the projectile by `delta` microseconds. Once its lifetime has
    /// run out it gives up its remaining explosions for one final explosion
    /// at `location`.
    pub fn tick(&mut self, delta: u64, location: Vec2) -> (r: Option<Explosion>)
        requires
            old(self).wf(),
            location.in_world(),
        ensures
            final(self).wf(),
            final(self)@.timer == ticked(old(self)@.timer, delta as nat),
            final(self)@.origin == old(self)@.origin,
            final(self)@.radius == old(self)@.radius,
            final(self)@.bounces == old(self)@.bounces,
            final(self)@.explosion_type == old(self)@.explosion_type,
            final(self)@.timer.finished ==> final(self)@.explosions == 0 && r == Some(
                Explosion::of_type(location, old(self)@.explosion_type),
            ),
            !final(self)@.timer.finished ==> final(self)@.explosions == old(self)@.explosions
                && r.is_none(),
            final(self)@.explosions <= old(self)@.explosions,
            r.is_some() ==> r.unwrap().wf(),
    {
        self.timer.tick(delta);
        if self.timer.finished() {
            self.explosions = 0;
            Some(Explosion::new(location, self.explosion_type))
        } else {
            None
        }
    }
}

} // verus!
