use vstd::prelude::*;

use crate::enemy::{Enemy, EnemyType, TARGET_MAX, TARGET_MIN};
use crate::timer::{ticked, Timer, TimerView, MAX_STEP};

verus! {

/// Most enemies alive at once.
pub const MAX_ENEMIES: usize = 15;

/// What a spawner holds: its cooldown, the enemies alive, the enemies
/// created so far, and the most that may be alive at once.
pub struct SpawnerView {
    pub timer: TimerView,
    pub enemy_count: nat,
    pub enemies_spawned: nat,
    pub cap: nat,
}

/// Rate-limited creation of enemies, bounded by a cap on those alive.
pub struct Spawner {
    timer: Timer,
    enemy_count: usize,
    enemies_spawned: usize,
    cap: usize,
}

impl View for Spawner {
    type V = SpawnerView;

    closed spec fn view(&self) -> SpawnerView {
        SpawnerView {
            timer: self.timer@,
            enemy_count: self.enemy_count as nat,
            enemies_spawned: self.enemies_spawned as nat,
            cap: self.cap as nat,
        }
    }
}

/// The counter of created enemies after one more, stopping at the largest
/// `usize`.
pub open spec fn next_spawned(n: nat) -> nat {
    if n < usize::MAX {
        n + 1
    } else {
        n
    }
}

impl Spawner {
    /// Well-formed: a repeating cooldown, and no more enemies alive than the cap.
    pub open spec fn wf(&self) -> bool {
        &&& self@.timer.elapsed <= self@.timer.duration
        &&& self@.timer.repeating
        &&& self@.timer.duration > 0
        &&& self@.enemy_count <= self@.cap
    }

    /// A spawner that may create an enemy every `period` microseconds,
    /// with at most `cap` alive.
    pub fn with_cap(period: u64, cap: usize) -> (r: Spawner)
        requires
            period > 0,
        ensures
            r.wf(),
            r@ == (SpawnerView {
                timer: TimerView {
                    duration: period as nat,
                    elapsed: 0,
                    repeating: true,
                    finished: false,
                    times_finished: 0,
                },
                enemy_count: 0,
                enemies_spawned: 0,
                cap: cap as nat,
            }),
    {
        Spawner { timer: Timer::new(period, true), enemy_count: 0, enemies_spawned: 0, cap }
    }

    /// A spawner with the game's cap on live enemies.
    pub fn new(period: u64) -> (r: Spawner)
        requires
            period > 0,
        ensures
            r.wf(),
            r@.cap == MAX_ENEMIES,
            r@.enemy_count == 0,
            r@.enemies_spawned == 0,
            r@.timer.duration == period,
            r@.timer.elapsed == 0,
    {
        Spawner::with_cap(period, MAX_ENEMIES)
    }

    pub fn enemy_count(&self) -> (r: usize)
        ensures
            r == self@.enemy_count,
    {
        self.enemy_count
    }

    pub fn enemies_spawned(&self) -> (r: usize)
        ensures
            r == self@.enemies_spawned,
    {
        self.enemies_spawned
    }

    pub fn cap(&self) -> (r: usize)
        ensures
            r == self@.cap,
    {
        self.cap
    }

    /// Counts one more enemy alive and one more created.
    fn spawn(&mut self) -> (r: Enemy)
        requires
            old(self).wf(),
            old(self)@.enemy_count < old(self)@.cap,
        ensures
            final(self).wf(),
            final(self)@ == (SpawnerView {
                enemy_count: old(self)@.enemy_count + 1,
                enemies_spawned: next_spawned(old(self)@.enemies_spawned),
                ..old(self)@
            }),
            r.wf(),
            r@.life == r@.initial_life,
            exists|t: EnemyType| Enemy::fresh(r@, t),
            TARGET_MIN <= r@.target_x < TARGET_MAX,
    {
        self.enemy_count = self.enemy_count + 1;
        if self.enemies_spawned < usize::MAX {
            self.enemies_spawned = self.enemies_spawned + 1;
        }
        Enemy::create_random()
    }

    /// Advances the cooldown by `delta` microseconds and creates an enemy
    /// when it has just run out and fewer than the cap are alive.
    pub fn spawn_if_ready(&mut self, delta: u64) -> (r: Option<Enemy>)
        requires
            old(self).wf(),
            delta < MAX_STEP,
        ensures
            final(self).wf(),
            final(self)@.timer == ticked(old(self)@.timer, delta as nat),
            final(self)@.cap == old(self)@.cap,
            ({
                let due = ticked(old(self)@.timer, delta as nat).times_finished > 0;
                if due && old(self)@.enemy_count < old(self)@.cap {
                    &&& r.is_some()
                    &&& r.unwrap().wf()
                    &&& exists|t: EnemyType| Enemy::fresh(r.unwrap()@, t)
                    &&& TARGET_MIN <= r.unwrap()@.target_x < TARGET_MAX
                    &&& final(self)@.enemy_count == old(self)@.enemy_count + 1
                    &&& final(self)@.enemies_spawned == next_spawned(old(self)@.enemies_spawned)
                } else {
                    &&& r.is_none()
                    &&& final(self)@.enemy_count == old(self)@.enemy_count
                    &&& final(self)@.enemies_spawned == old(self)@.enemies_spawned
                }
            }),
    {
        self.timer.tick(delta);
        if !self.timer.just_finished() {
            None
        } else if self.enemy_count >= self.cap {
            None
        } else {
            Some(self.spawn())
        }
    }

    /// Records that one enemy was removed.
    pub fn despawn(&mut self)
        requires
            old(self).wf(),
            old(self)@.enemy_count > 0,
        ensures
            final(self).wf(),
            final(self)@ == (SpawnerView {
                enemy_count: (old(self)@.enemy_count - 1) as nat,
                ..old(self)@
            }),
    {
        self.enemy_count = self.enemy_count - 1;
    }
}

} // verus!
