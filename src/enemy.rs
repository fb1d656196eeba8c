use vstd::prelude::*;

use crate::flasher::Tint;
use crate::geometry::{in_range, Vec2};
use crate::lifebar::{Lifebar, BAR_OFFSET_X, BAR_OFFSET_Y};
use crate::projectile::{Projectile, ProjectileType};
use crate::random::{draw_in, sample_weighted};
use crate::timer::{ticked, Timer, TimerView, MAX_STEP};

verus! {

/// Side of an enemy's square body, in milli-units.
pub const ENEMY_SIDE: i64 = 20_000;

/// Radius of the circle that stands for an enemy's body in damage tests.
pub const ENEMY_RADIUS: i64 = 10_500;

/// Walking speed, in milli-units per second.
pub const INITIAL_VELOCITY: i64 = 100_000;

/// Speed below which a braking enemy stops, in milli-units per second.
pub const STOP_THRESHOLD: i64 = 80;

/// Right edge of the visible world, in milli-units.
pub const WORLD_WIDTH: i64 = 1_000_000;

/// Horizontal positions where enemies enter, and beyond which they have
/// left the screen, in milli-units.
pub const LEFT_EDGE: i64 = -30_000;

pub const RIGHT_EDGE: i64 = 1_030_000;

/// Range of the distance from its edge at which an enemy stops to shoot.
pub const TARGET_MIN: u64 = 50_000;

pub const TARGET_MAX: u64 = 410_000;

/// Range of the heights at which enemies enter.
pub const START_HEIGHT_MIN: u64 = 100_000;

pub const START_HEIGHT_MAX: u64 = 560_000;

/// Where a projectile leaves an enemy, ahead of its centre: clearance plus
/// half the body sideways, half the body up.
pub const MUZZLE_X: i64 = 14_000;

pub const MUZZLE_Y: i64 = 10_000;

/// The side an enemy walks towards.
#[derive(Clone, Copy, Debug, PartialEq, Eq, Structural)]
pub enum EnemyDirection {
    Right,
    Left,
}

impl EnemyDirection {
    /// Walking velocity.
    pub open spec fn velocity_spec(self) -> Vec2 {
        match self {
            EnemyDirection::Right => Vec2 { x: INITIAL_VELOCITY, y: 0 },
            EnemyDirection::Left => Vec2 { x: (-INITIAL_VELOCITY) as i64, y: 0 },
        }
    }

    /// Velocity when leaving, back the way it came.
    pub open spec fn escape_velocity_spec(self) -> Vec2 {
        match self {
            EnemyDirection::Right => Vec2 { x: (-INITIAL_VELOCITY) as i64, y: 0 },
            EnemyDirection::Left => Vec2 { x: INITIAL_VELOCITY, y: 0 },
        }
    }

    /// Past the screen edge it entered from.
    pub open spec fn escaped_spec(self, x: int) -> bool {
        match self {
            EnemyDirection::Right => x < LEFT_EDGE,
            EnemyDirection::Left => x > RIGHT_EDGE,
        }
    }

    pub fn velocity(&self) -> (r: Vec2)
        ensures
            r == self.velocity_spec(),
    {
        match self {
            EnemyDirection::Right => Vec2 { x: INITIAL_VELOCITY, y: 0 },
            EnemyDirection::Left => Vec2 { x: -INITIAL_VELOCITY, y: 0 },
        }
    }

    pub fn escape_velocity(&self) -> (r: Vec2)
        ensures
            r == self.escape_velocity_spec(),
    {
        match self {
            EnemyDirection::Right => Vec2 { x: -INITIAL_VELOCITY, y: 0 },
            EnemyDirection::Left => Vec2 { x: INITIAL_VELOCITY, y: 0 },
        }
    }

    /// Where an enemy enters at the given height: just off the screen edge
    /// opposite the way it walks.
    pub fn start(&self, height: i64) -> (r: Vec2)
        ensures
            r.y == height,
            r.x == match self {
                EnemyDirection::Right => LEFT_EDGE,
                EnemyDirection::Left => RIGHT_EDGE,
            },
    {
        match self {
            EnemyDirection::Right => Vec2 { x: LEFT_EDGE, y: height },
            EnemyDirection::Left => Vec2 { x: RIGHT_EDGE, y: height },
        }
    }

    pub fn escaped(&self, x: i64) -> (r: bool)
        ensures
            r == self.escaped_spec(x as int),
    {
        match self {
            EnemyDirection::Right => x < LEFT_EDGE,
            EnemyDirection::Left => x > RIGHT_EDGE,
        }
    }
}

/// The kinds of enemy.
#[derive(Clone, Copy, Debug, PartialEq, Eq, Structural)]
pub enum EnemyType {
    Weak,
    Medium,
    Hard,
    Demon,
    Bouncer,
}

/// Life, ammunition, delay between shots (microseconds), projectile and
/// colour of an enemy type.
#[derive(Clone, Copy, Debug, PartialEq, Eq, Structural)]
pub struct EnemyStats {
    pub life: i64,
    pub bullets: usize,
    pub shoot_delay: u64,
    pub projectile: ProjectileType,
    pub tint: Tint,
}

impl EnemyType {
    pub open spec fn stats_spec(self) -> EnemyStats {
        match self {
            EnemyType::Weak => EnemyStats { life: 75, bullets: 50, shoot_delay: 1_500_000, projectile: ProjectileType::WeakShot, tint: Tint::Cyan },
            EnemyType::Medium => EnemyStats { life: 85, bullets: 50, shoot_delay: 2_000_000, projectile: ProjectileType::BigShot, tint: Tint::Green },
            EnemyType::Hard => EnemyStats { life: 95, bullets: 50, shoot_delay: 2_200_000, projectile: ProjectileType::HugeShot, tint: Tint::Orange },
            EnemyType::Demon => EnemyStats { life: 100, bullets: 100, shoot_delay: 1_500_000, projectile: ProjectileType::HotShot, tint: Tint::Red },
            EnemyType::Bouncer => EnemyStats { life: 110, bullets: 200, shoot_delay: 800_000, projectile: ProjectileType::MiniShot, tint: Tint::Purple },
        }
    }

    pub fn get_stats(&self) -> (r: EnemyStats)
        ensures
            r == self.stats_spec(),
    {
        match self {
            EnemyType::Weak => EnemyStats { life: 75, bullets: 50, shoot_delay: 1_500_000, projectile: ProjectileType::WeakShot, tint: Tint::Cyan },
            EnemyType::Medium => EnemyStats { life: 85, bullets: 50, shoot_delay: 2_000_000, projectile: ProjectileType::BigShot, tint: Tint::Green },
            EnemyType::Hard => EnemyStats { life: 95, bullets: 50, shoot_delay: 2_200_000, projectile: ProjectileType::HugeShot, tint: Tint::Orange },
            EnemyType::Demon => EnemyStats { life: 100, bullets: 100, shoot_delay: 1_500_000, projectile: ProjectileType::HotShot, tint: Tint::Red },
            EnemyType::Bouncer => EnemyStats { life: 110, bullets: 200, shoot_delay: 800_000, projectile: ProjectileType::MiniShot, tint: Tint::Purple },
        }
    }

    /// The type at a given place of the table of types.
    pub open spec fn from_index_spec(i: int) -> EnemyType {
        if i == 0 {
            EnemyType::Weak
        } else if i == 1 {
            EnemyType::Medium
        } else if i == 2 {
            EnemyType::Hard
        } else if i == 3 {
            EnemyType::Demon
        } else {
            EnemyType::Bouncer
        }
    }

    pub fn from_index(i: usize) -> (r: EnemyType)
        ensures
            r == EnemyType::from_index_spec(i as int),
    {
        if i == 0 {
            EnemyType::Weak
        } else if i == 1 {
            EnemyType::Medium
        } else if i == 2 {
            EnemyType::Hard
        } else if i == 3 {
            EnemyType::Demon
        } else {
            EnemyType::Bouncer
        }
    }

    /// A type drawn with equal chances for all.
    pub fn random() -> (r: EnemyType) {
        let weights: Vec<u64> = vec![1, 1, 1, 1, 1];
        assert(weights@ == seq![1u64, 1, 1, 1, 1]);
        reveal_with_fuel(crate::random::weight_prefix, 6);
        let i = sample_weighted(&weights);
        EnemyType::from_index(i)
    }
}

/// What an enemy does when its fire timer goes off.
pub enum ShootResult {
    /// Fire this projectile.
    Fire(Projectile),
    /// Out of ammunition: leave with this velocity.
    GoAway(Vec2),
    /// Dead: nothing.
    Pass,
}

/// What an enemy holds.
pub struct EnemyView {
    pub life: int,
    pub initial_life: int,
    pub target_x: int,
    pub direction: EnemyDirection,
    pub bullets: nat,
    pub location: Vec2,
    pub timer: TimerView,
    pub projectile_type: ProjectileType,
    pub tint: Tint,
}

/// A walking, shooting enemy.
#[derive(Clone, Copy)]
pub struct Enemy {
    life: i64,
    initial_life: i64,
    target_x: i64,
    direction: EnemyDirection,
    bullets: usize,
    location: Vec2,
    timer: Timer,
    projectile_type: ProjectileType,
    tint: Tint,
}

impl View for Enemy {
    type V = EnemyView;

    closed spec fn view(&self) -> EnemyView {
        EnemyView {
            life: self.life as int,
            initial_life: self.initial_life as int,
            target_x: self.target_x as int,
            direction: self.direction,
            bullets: self.bullets as nat,
            location: self.location,
            timer: self.timer@,
            projectile_type: self.projectile_type,
            tint: self.tint,
        }
    }
}

/// Scales a speed by 97/100, rounding toward zero.
pub open spec fn decelerated(v: int) -> int {
    if v >= 0 {
        v * 97 / 100
    } else {
        -((-v) * 97 / 100)
    }
}

fn decelerate(v: i64) -> (r: i64)
    ensures
        r == decelerated(v as int),
{
    let w: i128 = v as i128;
    if w >= 0 {
        assert(w * 97 / 100 <= w) by (nonlinear_arith)
            requires
                w >= 0,
        ;
        (w * 97 / 100) as i64
    } else {
        let m: i128 = -w;
        assert(m * 97 / 100 <= m) by (nonlinear_arith)
            requires
                m > 0,
        ;
        (-(m * 97 / 100)) as i64
    }
}

/// Where a projectile fired from an enemy standing at `origin` starts.
pub open spec fn muzzle(origin: Vec2, d: EnemyDirection) -> (int, int) {
    match d {
        EnemyDirection::Right => (origin.x + MUZZLE_X, origin.y + MUZZLE_Y),
        EnemyDirection::Left => (origin.x - MUZZLE_X, origin.y + MUZZLE_Y),
    }
}

impl Enemy {
    /// Well-formed: a repeating fire timer with a positive period that has
    /// not run past it, life never above the initial life, and a position
    /// inside the world.
    pub open spec fn wf(&self) -> bool {
        &&& self@.timer.elapsed <= self@.timer.duration
        &&& self@.timer.repeating
        &&& self@.timer.duration > 0
        &&& self@.life <= self@.initial_life
        &&& self@.initial_life > 0
        &&& self@.location.in_world()
    }

    /// A freshly made enemy of type `t`: full life, full ammunition, the
    /// type's projectile and colour, at the origin, with a fire timer that
    /// has not started.
    pub open spec fn fresh(v: EnemyView, t: EnemyType) -> bool {
        &&& v.life == t.stats_spec().life
        &&& v.initial_life == t.stats_spec().life
        &&& v.bullets == t.stats_spec().bullets
        &&& v.projectile_type == t.stats_spec().projectile
        &&& v.tint == t.stats_spec().tint
        &&& v.location == Vec2 { x: 0, y: 0 }
        &&& v.timer == TimerView {
            duration: t.stats_spec().shoot_delay as nat,
            elapsed: 0,
            repeating: true,
            finished: false,
            times_finished: 0,
        }
    }

    /// Has crossed the point where it stops to shoot.
    pub open spec fn past_target(self, x: int) -> bool {
        match self@.direction {
            EnemyDirection::Right => x > self@.target_x,
            EnemyDirection::Left => WORLD_WIDTH - x > self@.target_x,
        }
    }

    /// The velocity after `adjust_velocity`: unchanged while walking towards
    /// the stop point; once past it with ammunition left, slowed down, or
    /// `None` when the horizontal speed falls under the threshold.
    pub open spec fn next_velocity(self, coordinates: Vec2, velocity: Vec2) -> Option<Vec2> {
        if self@.bullets > 0 && self.past_target(coordinates.x as int) {
            let nx = decelerated(velocity.x as int);
            let ny = decelerated(velocity.y as int);
            if -STOP_THRESHOLD < nx < STOP_THRESHOLD {
                None
            } else {
                Some(Vec2 { x: nx as i64, y: ny as i64 })
            }
        } else {
            Some(velocity)
        }
    }

    pub open spec fn is_dead_spec(self) -> bool {
        self@.life <= 0
    }

    pub open spec fn done_spec(self) -> bool {
        self.is_dead_spec() || (self@.bullets == 0 && self@.direction.escaped_spec(
            self@.location.x as int,
        ))
    }

    /// An enemy of type `t` that stops `target_x` from its edge of the
    /// screen and walks in direction `direction`.
    pub fn from_parts(t: EnemyType, target_x: i64, direction: EnemyDirection) -> (r: Enemy)
        ensures
            r.wf(),
            r@.life == t.stats_spec().life,
            r@.initial_life == t.stats_spec().life,
            r@.bullets == t.stats_spec().bullets,
            r@.projectile_type == t.stats_spec().projectile,
            r@.tint == t.stats_spec().tint,
            r@.target_x == target_x,
            r@.direction == direction,
            r@.location == (Vec2 { x: 0, y: 0 }),
            r@.timer == (TimerView {
                duration: t.stats_spec().shoot_delay as nat,
                elapsed: 0,
                repeating: true,
                finished: false,
                times_finished: 0,
            }),
    {
        let stats = t.get_stats();
        Enemy {
            life: stats.life,
            initial_life: stats.life,
            bullets: stats.bullets,
            timer: Timer::new(stats.shoot_delay, true),
            projectile_type: stats.projectile,
            tint: stats.tint,
            target_x,
            direction,
            location: Vec2 { x: 0, y: 0 },
        }
    }

    /// An enemy of type `t` with a stop point and a direction drawn at random.
    pub fn new(t: EnemyType) -> (r: Enemy)
        ensures
            r.wf(),
            Enemy::fresh(r@, t),
            r@.location == (Vec2 { x: 0, y: 0 }),
            r@.direction == EnemyDirection::Right || r@.direction == EnemyDirection::Left,
            TARGET_MIN <= r@.target_x < TARGET_MAX,
    {
        let target = draw_in(TARGET_MIN, TARGET_MAX);
        let side = draw_in(0, 2);
        let direction = if side == 0 {
            EnemyDirection::Right
        } else {
            EnemyDirection::Left
        };
        Enemy::from_parts(t, target as i64, direction)
    }

    /// An enemy of a type drawn at random.
    pub fn create_random() -> (r: Enemy)
        ensures
            r.wf(),
            r@.life == r@.initial_life,
            exists|t: EnemyType| Enemy::fresh(r@, t),
            TARGET_MIN <= r@.target_x < TARGET_MAX,
    {
        let t = EnemyType::random();
        let r = Enemy::new(t);
        assert(Enemy::fresh(r@, t));
        r
    }

    /// Where this enemy enters the screen, at a height drawn at random.
    pub fn start_position(&self) -> (r: Vec2)
        ensures
            START_HEIGHT_MIN <= r.y < START_HEIGHT_MAX,
            r.x == match self@.direction {
                EnemyDirection::Right => LEFT_EDGE,
                EnemyDirection::Left => RIGHT_EDGE,
            },
    {
        let h = draw_in(START_HEIGHT_MIN, START_HEIGHT_MAX);
        self.direction.start(h as i64)
    }

    /// The walking velocity this enemy enters with.
    pub fn velocity(&self) -> (r: Vec2)
        ensures
            r == self@.direction.velocity_spec(),
    {
        self.direction.velocity()
    }

    pub fn life(&self) -> (r: i64)
        ensures
            r == self@.life,
    {
        self.life
    }

    pub fn initial_life(&self) -> (r: i64)
        ensures
            r == self@.initial_life,
    {
        self.initial_life
    }

    pub fn bullets(&self) -> (r: usize)
        ensures
            r == self@.bullets,
    {
        self.bullets
    }

    pub fn direction(&self) -> (r: EnemyDirection)
        ensures
            r == self@.direction,
    {
        self.direction
    }

    pub fn location(&self) -> (r: Vec2)
        ensures
            r == self@.location,
            self.wf() ==> r.in_world(),
    {
        self.location
    }

    pub fn tint(&self) -> (r: Tint)
        ensures
            r == self@.tint,
    {
        self.tint
    }

    /// Advances the fire timer by `delta` microseconds; true when a shot is due.
    pub fn ready(&mut self, delta: u64) -> (r: bool)
        requires
            old(self).wf(),
            delta < MAX_STEP,
        ensures
            final(self).wf(),
            final(self)@ == (EnemyView { timer: ticked(old(self)@.timer, delta as nat), ..old(self)@ }),
            r == (final(self)@.timer.times_finished > 0),
    {
        self.timer.tick(delta);
        self.timer.just_finished()
    }

    /// What a shot from `origin` does: nothing when dead, a projectile from
    /// the muzzle (spending a bullet) while ammunition lasts, and otherwise
    /// the velocity to leave with.
    pub fn shoot(&mut self, origin: Vec2) -> (r: ShootResult)
        requires
            old(self).wf(),
            in_range(muzzle(origin, old(self)@.direction).0),
            in_range(muzzle(origin, old(self)@.direction).1),
        ensures
            final(self).wf(),
            old(self).is_dead_spec() ==> r is Pass && final(self)@ == old(self)@,
            !old(self).is_dead_spec() && old(self)@.bullets > 0 ==> final(self)@ == (EnemyView {
                bullets: (old(self)@.bullets - 1) as nat,
                ..old(self)@
            }) && match r {
                ShootResult::Fire(p) => {
                    &&& p.wf()
                    &&& (p@.origin.x as int, p@.origin.y as int) == muzzle(
                        origin,
                        old(self)@.direction,
                    )
                    &&& Projectile::fresh(p@, p@.origin, old(self)@.projectile_type)
                },
                _ => false,
            },
            !old(self).is_dead_spec() && old(self)@.bullets == 0 ==> final(self)@ == old(self)@
                && r == ShootResult::GoAway(old(self)@.direction.escape_velocity_spec()),
    {
        if self.life <= 0 {
            ShootResult::Pass
        } else if self.bullets > 0 {
            self.bullets = self.bullets - 1;
            let start = match self.direction {
                EnemyDirection::Right => Vec2 { x: origin.x + MUZZLE_X, y: origin.y + MUZZLE_Y },
                EnemyDirection::Left => Vec2 { x: origin.x - MUZZLE_X, y: origin.y + MUZZLE_Y },
            };
            ShootResult::Fire(Projectile::new(start, self.projectile_type))
        } else {
            ShootResult::GoAway(self.direction.escape_velocity())
        }
    }

    /// Records the enemy's position and returns its next velocity: unchanged
    /// while it walks towards its stop point; once past it with ammunition
    /// left, slowed by 3% per call, and `None` (stop and start shooting) once
    /// the horizontal speed falls under the threshold.
    pub fn adjust_velocity(&mut self, coordinates: Vec2, velocity: Vec2) -> (r: Option<Vec2>)
        requires
            old(self).wf(),
            coordinates.in_world(),
        ensures
            final(self).wf(),
            final(self)@ == (EnemyView { location: coordinates, ..old(self)@ }),
            r == old(self).next_velocity(coordinates, velocity),
    {
        self.location = coordinates;
        let should_stop = self.bullets > 0 && match self.direction {
            EnemyDirection::Right => coordinates.x > self.target_x,
            EnemyDirection::Left => WORLD_WIDTH - coordinates.x > self.target_x,
        };
        if should_stop {
            let nx = decelerate(velocity.x);
            let ny = decelerate(velocity.y);
            if -STOP_THRESHOLD < nx && nx < STOP_THRESHOLD {
                None
            } else {
                Some(Vec2 { x: nx, y: ny })
            }
        } else {
            Some(velocity)
        }
    }

    /// Loses `damage` hit points (life stops at the smallest `i64`).
    pub fn take_damage(&mut self, damage: u64)
        requires
            old(self).wf(),
        ensures
            final(self).wf(),
            final(self)@ == (EnemyView {
                life: if old(self)@.life - damage < i64::MIN {
                    i64::MIN as int
                } else {
                    old(self)@.life - damage
                },
                ..old(self)@
            }),
            final(self)@.life <= old(self)@.life,
    {
        let l: i128 = self.life as i128 - damage as i128;
        if l < i64::MIN as i128 {
            self.life = i64::MIN;
        } else {
            self.life = l as i64;
        }
    }

    /// Has no life left.
    pub fn is_dead(&self) -> (r: bool)
        ensures
            r == self.is_dead_spec(),
            r ==> self@.life <= 0,
    {
        self.life <= 0
    }

    /// The circle, centred on the last recorded position, that stands for
    /// the enemy's body in damage tests.
    pub fn as_circle(&self) -> (r: (Vec2, i64))
        ensures
            r.0 == self@.location,
            r.1 == ENEMY_RADIUS,
            self.wf() ==> r.0.in_world(),
    {
        (self.location, ENEMY_RADIUS)
    }

    /// Ready to be removed: dead, or out of ammunition and off the screen.
    pub fn done(&self) -> (r: bool)
        ensures
            r == self.done_spec(),
    {
        self.is_dead() || (self.bullets == 0 && self.direction.escaped(self.location.x))
    }

    /// The life bar above the enemy, while it is alive.
    pub fn get_lifebar(&self) -> (r: Option<Lifebar>)
        requires
            self.wf(),
            in_range(self@.location.x - ENEMY_SIDE / 2 + BAR_OFFSET_X),
            in_range(self@.location.y + (ENEMY_SIDE + 4_000) / 2 + BAR_OFFSET_Y),
        ensures
            self@.life <= 0 ==> r.is_none(),
            self@.life > 0 ==> r.is_some() && r.unwrap().wf() && r.unwrap().life == self@.life
                && r.unwrap().max_life == self@.initial_life && r.unwrap().origin.x
                == self@.location.x - ENEMY_SIDE / 2 + BAR_OFFSET_X && r.unwrap().origin.y
                == self@.location.y + (ENEMY_SIDE + 4_000) / 2 + BAR_OFFSET_Y,
    {
        if self.life > 0 {
            let anchor = Vec2 {
                x: self.location.x - ENEMY_SIDE / 2,
                y: self.location.y + (ENEMY_SIDE + 4_000) / 2,
            };
            Some(Lifebar::new(anchor, self.life, self.initial_life))
        } else {
            None
        }
    }
}

} // verus!
