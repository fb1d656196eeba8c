use vstd::prelude::*;

use crate::bumper::{worn, Bumper, Placement};
use crate::collision::{classify, classify_spec, CollisionEvent, Interaction};
use crate::enemy::{muzzle, Enemy, EnemyView, ShootResult, ENEMY_RADIUS, MUZZLE_X, MUZZLE_Y};
use crate::explosion::{circle_outcome, rect_outcome, ActiveExplosions, Explosion};
use crate::flasher::{Flasher, FlasherType};
use crate::geometry::{Vec2, WORLD_LIMIT};
use crate::ballistics::{launch_velocity_spec, GRAVITY, VERTICAL_SPEED_MAX, VERTICAL_SPEED_MIN};
use crate::projectile::{Projectile, ProjectileView, PLAYER_POSITION};
use crate::spawner::{Spawner, SpawnerView};
use crate::timer::{ticked, MAX_STEP};
use crate::tower::Tower;

verus! {

/// A live enemy and what the tick's phases track of it.
#[derive(Clone, Copy)]
pub struct EnemySlot {
    pub id: u64,
    pub enemy: Enemy,
    /// It has a velocity in the physics engine.
    pub moving: bool,
    /// It has stopped to shoot.
    pub shooter: bool,
}

/// A flying projectile, its last known position, and the tags that the
/// collision phase puts on it.
#[derive(Clone, Copy)]
pub struct ProjectileSlot {
    pub id: u64,
    pub projectile: Projectile,
    pub location: Vec2,
    pub just_landed: bool,
    pub exploded: bool,
}

/// What a projectile slot holds, as plain values.
pub struct SlotView {
    pub id: u64,
    pub projectile: ProjectileView,
    pub location: Vec2,
    pub just_landed: bool,
    pub exploded: bool,
}

impl View for ProjectileSlot {
    type V = SlotView;

    open spec fn view(&self) -> SlotView {
        SlotView {
            id: self.id,
            projectile: self.projectile@,
            location: self.location,
            just_landed: self.just_landed,
            exploded: self.exploded,
        }
    }
}

impl ProjectileSlot {
    pub open spec fn wf(self) -> bool {
        self.projectile.wf() && self.location.in_world()
    }
}

/// A fixed bumper and whether it deflected a projectile in this tick.
#[derive(Clone, Copy)]
pub struct BumperSlot {
    pub id: u64,
    pub bumper: Bumper,
    pub activated: bool,
}

/// A new enemy for the engine: its id, where it enters, how fast it walks.
#[derive(Clone, Copy, Debug, PartialEq, Eq, Structural)]
pub struct EnemySpawn {
    pub id: u64,
    pub start: Vec2,
    pub velocity: Vec2,
}

/// An entity that the engine should despawn in the cleanup phase.
#[derive(Clone, Copy, Debug, PartialEq, Eq, Structural)]
pub struct Done {
    pub id: u64,
}

/// What the player's placement action did.
#[derive(Clone, Copy, Debug, PartialEq, Eq, Structural)]
pub enum BumperAction {
    /// The floating bumper was fixed, under this id.
    Placed(u64),
    /// A new floating bumper appeared.
    Spawned,
}

/// What an enemy's fire timer led to.
#[derive(Clone, Copy, Debug, PartialEq, Eq, Structural)]
pub enum Shot {
    /// A projectile with this id left from `origin` at `velocity`.
    Fired { id: u64, origin: Vec2, velocity: Vec2 },
    /// The enemy leaves with this velocity.
    Leave(Vec2),
    /// Nothing happened.
    Hold,
}

/// The state of one play session: everything the tick's phases read and
/// change. It is created when a game starts and dropped when it ends.
pub struct Session {
    pub spawner: Spawner,
    pub explosions: ActiveExplosions,
    pub enemies: Vec<EnemySlot>,
    pub projectiles: Vec<ProjectileSlot>,
    pub tower: Option<Tower>,
    pub floating: Option<Bumper>,
    pub bumpers: Vec<BumperSlot>,
    /// Flashes requested during the tick, for the presentation layer.
    pub flashes: Vec<Flasher>,
    pub next_id: u64,
}

/// The tags a projectile carries after the contacts in `evs`: hitting a
/// trigger marks it exploded (and no longer landed), touching the ground
/// marks it landed.
pub open spec fn tagged(evs: Seq<CollisionEvent>, s: SlotView) -> SlotView
    decreases evs.len(),
{
    if evs.len() == 0 {
        s
    } else {
        let t = tagged(evs.drop_last(), s);
        match classify_spec(evs.last()) {
            Interaction::ProjectileExploded(id) => if id == s.id {
                SlotView { exploded: true, just_landed: false, ..t }
            } else {
                t
            },
            Interaction::ProjectileLanded(id) => if id == s.id {
                SlotView { just_landed: true, ..t }
            } else {
                t
            },
            _ => t,
        }
    }
}

/// Some contact in `evs` is a projectile deflected by the bumper `id`.
pub open spec fn bumped(evs: Seq<CollisionEvent>, id: u64) -> bool {
    exists|k: int| 0 <= k < evs.len() && classify_spec(evs[k]) == Interaction::BumperActivated(id)
}

/// A landed projectile bounces while it has bounces left and is marked
/// exploded otherwise; the landed tag is dropped.
pub open spec fn landed(s: SlotView) -> SlotView {
    if !s.just_landed {
        s
    } else if s.projectile.bounces == 0 {
        SlotView { just_landed: false, exploded: true, ..s }
    } else {
        SlotView {
            just_landed: false,
            projectile: ProjectileView { bounces: (s.projectile.bounces - 1) as nat, ..s.projectile },
            ..s
        }
    }
}

/// A projectile aged by `delta`: once its lifetime has run out it is marked
/// exploded, with at most one explosion left.
pub open spec fn expired(s: SlotView, delta: nat) -> SlotView {
    let timer = ticked(s.projectile.timer, delta);
    if timer.finished {
        SlotView {
            projectile: ProjectileView {
                timer,
                explosions: if s.projectile.explosions > 1 {
                    1
                } else {
                    s.projectile.explosions
                },
                ..s.projectile
            },
            exploded: true,
            just_landed: false,
            ..s
        }
    } else {
        SlotView { projectile: ProjectileView { timer, ..s.projectile }, ..s }
    }
}

/// A projectile after the explosion phase: an exploded one spends an
/// explosion and loses its tags.
pub open spec fn blown(s: SlotView) -> SlotView {
    if !s.exploded {
        s
    } else {
        SlotView {
            exploded: false,
            just_landed: false,
            projectile: ProjectileView {
                explosions: if s.projectile.explosions > 0 {
                    (s.projectile.explosions - 1) as nat
                } else {
                    0
                },
                ..s.projectile
            },
            ..s
        }
    }
}

/// The projectile is still there after the explosion phase.
pub open spec fn keeps(s: SlotView) -> bool {
    !s.exploded || s.projectile.explosions > 1
}

/// The projectiles left after the explosion phase.
pub open spec fn blown_survivors(s: Seq<SlotView>) -> Seq<SlotView>
    decreases s.len(),
{
    if s.len() == 0 {
        Seq::empty()
    } else {
        let p = blown_survivors(s.drop_last());
        if keeps(s.last()) {
            p.push(blown(s.last()))
        } else {
            p
        }
    }
}

/// The explosions of the explosion phase, in the order of the projectiles.
pub open spec fn blasts(s: Seq<SlotView>) -> Seq<Explosion>
    decreases s.len(),
{
    if s.len() == 0 {
        Seq::empty()
    } else {
        let p = blasts(s.drop_last());
        if s.last().exploded && s.last().projectile.explosions > 0 {
            p.push(Explosion::of_type(s.last().location, s.last().projectile.explosion_type))
        } else {
            p
        }
    }
}

/// The projectiles that the explosion phase removes, in order.
pub open spec fn spent(s: Seq<SlotView>) -> Seq<Done>
    decreases s.len(),
{
    if s.len() == 0 {
        Seq::empty()
    } else {
        let p = spent(s.drop_last());
        if keeps(s.last()) {
            p
        } else {
            p.push(Done { id: s.last().id })
        }
    }
}

pub open spec fn slot_views(v: Seq<ProjectileSlot>) -> Seq<SlotView> {
    v.map_values(|s: ProjectileSlot| s@)
}

/// Life after an optional amount of damage, stopping at the smallest `i64`.
pub open spec fn damaged(life: int, d: Option<u64>) -> int {
    match d {
        None => life,
        Some(x) => if life - x < i64::MIN {
            i64::MIN as int
        } else {
            life - x
        },
    }
}

/// The enemy after the damage phase.
pub open spec fn enemy_damaged(e: EnemyView, explosions: Seq<Explosion>) -> EnemyView {
    EnemyView {
        life: damaged(
            e.life,
            circle_outcome(explosions, e.location, ENEMY_RADIUS as int),
        ),
        ..e
    }
}

/// The projectiles after the landing and expiry steps.
pub open spec fn settled(s: Seq<SlotView>, delta: nat) -> Seq<SlotView> {
    s.map_values(|v: SlotView| expired(landed(v), delta))
}

/// Damage never adds life.
pub proof fn lemma_damage_never_heals(e: EnemyView, explosions: Seq<Explosion>)
    requires
        i64::MIN <= e.life,
    ensures
        enemy_damaged(e, explosions).life <= e.life,
        enemy_damaged(e, explosions).initial_life == e.initial_life,
        enemy_damaged(e, explosions).bullets == e.bullets,
{
}

/// A projectile tagged as landed in a tick in which its lifetime runs out
/// (or had already run out) ends that tick fully exploded: the landing step
/// runs first, whatever it decides the expiry step marks the projectile
/// exploded with at most one explosion left, the explosion phase spends it,
/// and the projectile is not kept.
pub proof fn lemma_landed_and_expired_projectile_explodes(s: SlotView, delta: nat)
    requires
        s.just_landed,
        ticked(s.projectile.timer, delta).finished,
    ensures
        expired(landed(s), delta).exploded,
        !expired(landed(s), delta).just_landed,
        !keeps(expired(landed(s), delta)),
        blown(expired(landed(s), delta)).projectile.explosions == 0,
        s.projectile.explosions > 0 ==> blasts(seq![expired(landed(s), delta)]) == seq![
            Explosion::of_type(s.location, s.projectile.explosion_type),
        ],
{
    assert(landed(s).projectile.timer == s.projectile.timer);
    let t = expired(landed(s), delta);
    assert(seq![t].drop_last() =~= Seq::<SlotView>::empty());
    assert(seq![t].last() == t);
    assert(blasts(Seq::<SlotView>::empty()) == Seq::<Explosion>::empty());
    assert(t.location == s.location);
    assert(t.projectile.explosion_type == s.projectile.explosion_type);
    if s.projectile.explosions > 0 {
        assert(t.projectile.explosions > 0);
        assert(blasts(seq![t]) =~= seq![Explosion::of_type(s.location, s.projectile.explosion_type)]);
    }
}

/// The explosion phase produces at most one explosion per projectile, and
/// only from projectiles marked exploded with an explosion left.
pub proof fn lemma_one_blast_per_projectile(s: Seq<SlotView>)
    ensures
        blasts(s).len() <= s.len(),
        blasts(s).len() == s.len() ==> forall|j: int|
            0 <= j < s.len() ==> (#[trigger] s[j]).exploded && s[j].projectile.explosions > 0,
    decreases s.len(),
{
    if s.len() > 0 {
        let p = s.drop_last();
        lemma_one_blast_per_projectile(p);
        if blasts(s).len() == s.len() {
            assert(blasts(p).len() == p.len());
            assert forall|j: int| 0 <= j < s.len() implies (#[trigger] s[j]).exploded
                && s[j].projectile.explosions > 0 by {
                if j < p.len() {
                    assert(s[j] == p[j]);
                } else {
                    assert(s[j] == s.last());
                }
            }
        }
    }
}

/// Every projectile kept by the explosion phase comes from one that `keeps`
/// holds of, having spent the explosion it was marked for.
pub proof fn lemma_survivors_come_from_kept(s: Seq<SlotView>)
    ensures
        blown_survivors(s).len() <= s.len(),
        forall|k: int|
            0 <= k < blown_survivors(s).len() ==> exists|j: int|
                0 <= j < s.len() && keeps(s[j]) && #[trigger] blown_survivors(s)[k] == blown(s[j]),
    decreases s.len(),
{
    if s.len() > 0 {
        let p = s.drop_last();
        lemma_survivors_come_from_kept(p);
        assert forall|k: int| 0 <= k < blown_survivors(s).len() implies exists|j: int|
            0 <= j < s.len() && keeps(s[j]) && #[trigger] blown_survivors(s)[k] == blown(s[j]) by {
            if k < blown_survivors(p).len() {
                let j = choose|j: int|
                    0 <= j < p.len() && keeps(p[j]) && #[trigger] blown_survivors(p)[k] == blown(
                        p[j],
                    );
                assert(s[j] == p[j]);
            } else {
                assert(s[s.len() - 1] == s.last());
            }
        }
    }
}

/// Outside the area where bodies are kept: more than a margin beyond the
/// sides or below the ground, or very high above the screen.
pub open spec fn out_of_bounds(p: Vec2) -> bool {
    p.y < -100_000 || p.x < -100_000 || p.x > 1_100_000 || p.y > 20_000_000
}

/// The enemy is alive before the damage phase and dead after it.
pub open spec fn dies(e: EnemyView, explosions: Seq<Explosion>) -> bool {
    e.life > 0 && enemy_damaged(e, explosions).life <= 0
}

/// Where the enemies that the damage phase kills stand, in order.
pub open spec fn death_spots(s: Seq<EnemySlot>, explosions: Seq<Explosion>) -> Seq<Vec2>
    decreases s.len(),
{
    if s.len() == 0 {
        Seq::empty()
    } else if dies(s.last().enemy@, explosions) {
        death_spots(s.drop_last(), explosions).push(s.last().enemy@.location)
    } else {
        death_spots(s.drop_last(), explosions)
    }
}

/// `new` is `old` followed by one fresh death flash at each of `spots`.
pub open spec fn flashes_added(old: Seq<Flasher>, new: Seq<Flasher>, spots: Seq<Vec2>) -> bool {
    &&& new.len() == old.len() + spots.len()
    &&& new.subrange(0, old.len() as int) == old
    &&& forall|k: int|
        0 <= k < spots.len() ==> Flasher::is_new(
            #[trigger] new[old.len() + k],
            spots[k],
            FlasherType::EnemyDeath,
        )
}

/// The `Done` ids of the enemies that `despawn_enemy` removes, in order.
pub open spec fn done_enemies(s: Seq<EnemySlot>) -> Seq<Done>
    decreases s.len(),
{
    if s.len() == 0 {
        Seq::empty()
    } else if enemy_stays(s.last()) {
        done_enemies(s.drop_last())
    } else {
        done_enemies(s.drop_last()).push(Done { id: s.last().id })
    }
}

/// The `Done` ids of the projectiles outside the kept area, in order.
pub open spec fn stray_projectiles(s: Seq<ProjectileSlot>) -> Seq<Done>
    decreases s.len(),
{
    if s.len() == 0 {
        Seq::empty()
    } else if out_of_bounds(s.last().location) {
        stray_projectiles(s.drop_last()).push(Done { id: s.last().id })
    } else {
        stray_projectiles(s.drop_last())
    }
}

/// The `Done` ids of the enemies outside the kept area, in order.
pub open spec fn stray_enemies(s: Seq<EnemySlot>) -> Seq<Done>
    decreases s.len(),
{
    if s.len() == 0 {
        Seq::empty()
    } else if out_of_bounds(s.last().enemy@.location) {
        stray_enemies(s.drop_last()).push(Done { id: s.last().id })
    } else {
        stray_enemies(s.drop_last())
    }
}

/// A muzzle at either side of an enemy standing at `at` lies in the world.
pub open spec fn muzzle_in_reach(at: Vec2) -> bool {
    -WORLD_LIMIT + MUZZLE_X <= at.x <= WORLD_LIMIT - MUZZLE_X && at.y <= WORLD_LIMIT - MUZZLE_Y
}

/// The slots that `despawn_enemy` keeps.
pub open spec fn enemy_stays(s: EnemySlot) -> bool {
    !s.enemy.done_spec()
}

impl Session {
    pub open spec fn wf(&self) -> bool {
        &&& self.spawner.wf()
        &&& self.explosions.wf()
        &&& self.enemies@.len() == self.spawner@.enemy_count
        &&& forall|i: int| 0 <= i < self.enemies@.len() ==> (#[trigger] self.enemies@[i]).enemy.wf()
        &&& forall|i: int| 0 <= i < self.projectiles@.len() ==> (#[trigger] self.projectiles@[i]).wf()
        &&& self.tower.is_some() ==> self.tower.unwrap().wf() && self.tower.unwrap().life_spec() > 0
    }

    /// A fresh session with its tower and an enemy due every `spawn_period`
    /// microseconds.
    pub fn new(spawn_period: u64) -> (r: Session)
        requires
            spawn_period > 0,
        ensures
            r.wf(),
            r.enemies@.len() == 0,
            r.projectiles@.len() == 0,
            r.bumpers@.len() == 0,
            r.floating.is_none(),
            r.tower.is_some(),
            r.tower.unwrap().life_spec() == crate::tower::INITIAL_LIFE,
            r.explosions@.len() == 0,
    {
        Session {
            spawner: Spawner::new(spawn_period),
            explosions: ActiveExplosions::new(),
            enemies: Vec::new(),
            projectiles: Vec::new(),
            tower: Some(Tower::new()),
            floating: None,
            bumpers: Vec::new(),
            flashes: Vec::new(),
            next_id: 0,
        }
    }

    /// A fresh identity (identities stop at the largest `u64`).
    fn fresh_id(&mut self) -> (r: u64)
        ensures
            r == old(self).next_id,
            final(self).next_id == if old(self).next_id < u64::MAX {
                old(self).next_id + 1
            } else {
                old(self).next_id as int
            },
            final(self).spawner == old(self).spawner,
            final(self).explosions == old(self).explosions,
            final(self).enemies == old(self).enemies,
            final(self).projectiles == old(self).projectiles,
            final(self).tower == old(self).tower,
            final(self).bumpers == old(self).bumpers,
            final(self).floating == old(self).floating,
            final(self).flashes == old(self).flashes,
    {
        let id = self.next_id;
        if self.next_id < u64::MAX {
            self.next_id = self.next_id + 1;
        }
        id
    }

    /// Advances the spawn cooldown by `delta` microseconds and, when the
    /// spawner creates an enemy, adds it walking in from its side.
    pub fn spawn_enemy(&mut self, delta: u64) -> (r: Option<EnemySpawn>)
        requires
            old(self).wf(),
            delta < MAX_STEP,
        ensures
            final(self).wf(),
            final(self).projectiles == old(self).projectiles,
            final(self).tower == old(self).tower,
            r.is_none() ==> final(self).enemies@ == old(self).enemies@,
            r.is_some() ==> {
                &&& final(self).enemies@.len() == old(self).enemies@.len() + 1
                &&& final(self).enemies@.drop_last() == old(self).enemies@
                &&& final(self).enemies@.last().id == r.unwrap().id
                &&& final(self).enemies@.last().moving
                &&& !final(self).enemies@.last().shooter
                &&& {
                    let e = final(self).enemies@.last().enemy@;
                    let sp = r.unwrap();
                    &&& exists|t: crate::enemy::EnemyType| Enemy::fresh(e, t)
                    &&& crate::enemy::TARGET_MIN <= e.target_x < crate::enemy::TARGET_MAX
                    &&& sp.velocity == e.direction.velocity_spec()
                    &&& crate::enemy::START_HEIGHT_MIN <= sp.start.y
                        < crate::enemy::START_HEIGHT_MAX
                    &&& sp.start.x == match e.direction {
                        crate::enemy::EnemyDirection::Right => crate::enemy::LEFT_EDGE,
                        crate::enemy::EnemyDirection::Left => crate::enemy::RIGHT_EDGE,
                    }
                }
            },
            final(self).spawner@.enemies_spawned >= old(self).spawner@.enemies_spawned,
            ({
                let due = crate::timer::ticked(old(self).spawner@.timer, delta as nat).times_finished
                    > 0;
                r.is_some() == (due && old(self).spawner@.enemy_count < old(self).spawner@.cap)
            }),
    {
        match self.spawner.spawn_if_ready(delta) {
            None => None,
            Some(enemy) => {
                let id = self.fresh_id();
                let start = enemy.start_position();
                let velocity = enemy.velocity();
                self.enemies.push(EnemySlot { id, enemy, moving: true, shooter: false });
                proof {
                    assert(self.enemies@.drop_last() =~= old(self).enemies@);
                    assert forall|i: int| 0 <= i < self.enemies@.len() implies (
                    #[trigger] self.enemies@[i]).enemy.wf() by {
                        if i < old(self).enemies@.len() {
                            assert(self.enemies@[i] == old(self).enemies@[i]);
                        }
                    }
                }
                Some(EnemySpawn { id, start, velocity })
            },
        }
    }

    /// Removes the enemies that are done (dead, or gone without
    /// ammunition), telling the spawner of each, and returns their ids.
    pub fn despawn_enemy(&mut self) -> (r: Vec<Done>)
        requires
            old(self).wf(),
        ensures
            final(self).wf(),
            final(self).enemies@ == old(self).enemies@.filter(|s: EnemySlot| enemy_stays(s)),
            final(self).projectiles == old(self).projectiles,
            final(self).tower == old(self).tower,
            final(self).spawner@ == (SpawnerView {
                enemy_count: final(self).enemies@.len(),
                ..old(self).spawner@
            }),
            r@ == done_enemies(old(self).enemies@),
            r@.len() + final(self).enemies@.len() == old(self).enemies@.len(),
    {
        let mut kept: Vec<EnemySlot> = Vec::new();
        let mut gone: Vec<Done> = Vec::new();
        let mut i: usize = 0;
        let ghost olds = self.enemies@;
        while i < self.enemies.len()
            invariant
                self.enemies@ == olds,
                olds == old(self).enemies@,
                self.projectiles == old(self).projectiles,
                self.explosions == old(self).explosions,
                self.tower == old(self).tower,
                old(self).wf(),
                0 <= i <= olds.len(),
                kept@ == olds.take(i as int).filter(|s: EnemySlot| enemy_stays(s)),
                gone@ == done_enemies(olds.take(i as int)),
                gone@.len() + kept@.len() == i,
                self.spawner.wf(),
                self.spawner@ == (SpawnerView {
                    enemy_count: (olds.len() - gone@.len()) as nat,
                    ..old(self).spawner@
                }),
                forall|j: int| 0 <= j < olds.len() ==> (#[trigger] olds[j]).enemy.wf(),
                forall|j: int| 0 <= j < kept@.len() ==> (#[trigger] kept@[j]).enemy.wf(),
            decreases olds.len() - i,
        {
            let s = self.enemies[i];
            proof {
                assert(olds.take(i + 1).drop_last() =~= olds.take(i as int));
                assert(olds.take(i + 1).last() == s);
                reveal(Seq::filter);
            }
            if s.enemy.done() {
                self.spawner.despawn();
                gone.push(Done { id: s.id });
            } else {
                kept.push(s);
            }
            i = i + 1;
        }
        assert(olds.take(i as int) =~= olds);
        self.enemies = kept;
        gone
    }

    /// Hands the engine's position and velocity of enemy `i` to it, while it
    /// walks, and returns the velocity to apply; `None` means it stopped,
    /// and it becomes a shooter. An enemy that does not walk is left as it is.
    pub fn manage_enemy_movement(&mut self, i: usize, position: Vec2, velocity: Vec2) -> (r: Option<Vec2>)
        requires
            old(self).wf(),
            i < old(self).enemies@.len(),
            position.in_world(),
        ensures
            final(self).wf(),
            final(self).enemies@.len() == old(self).enemies@.len(),
            forall|j: int|
                0 <= j < old(self).enemies@.len() && j != i ==> final(self).enemies@[j]
                    == old(self).enemies@[j],
            final(self).projectiles == old(self).projectiles,
            final(self).tower == old(self).tower,
            final(self).spawner == old(self).spawner,
            ({
                let s0 = old(self).enemies@[i as int];
                let s1 = final(self).enemies@[i as int];
                &&& s1.id == s0.id
                &&& !s0.moving ==> r.is_none() && s1 == s0
                &&& s0.moving ==> {
                    &&& s1.enemy@ == (EnemyView { location: position, ..s0.enemy@ })
                    &&& r == s0.enemy.next_velocity(position, velocity)
                    &&& s1.moving == r.is_some()
                    &&& s1.shooter == (s0.shooter || r.is_none())
                }
            }),
    {
        let mut s = self.enemies[i];
        if !s.moving {
            return None;
        }
        let r = s.enemy.adjust_velocity(position, velocity);
        if r.is_none() {
            s.moving = false;
            s.shooter = true;
        }
        self.enemies.set(i, s);
        proof {
            assert forall|j: int| 0 <= j < self.enemies@.len() implies (
            #[trigger] self.enemies@[j]).enemy.wf() by {
                if j != i {
                    assert(self.enemies@[j] == old(self).enemies@[j]);
                }
            }
        }
        r
    }

    /// Advances the fire timer of enemy `i`, while it shoots, by `delta`
    /// microseconds, and when a shot is due lets it fire from where it
    /// stands: a new projectile towards the tower while it has ammunition,
    /// and otherwise the velocity to leave with. Nothing is fired from a
    /// muzzle that would lie outside the world.
    pub fn shoot(&mut self, i: usize, delta: u64) -> (r: Shot)
        requires
            old(self).wf(),
            delta < MAX_STEP,
            i < old(self).enemies@.len(),
        ensures
            final(self).wf(),
            final(self).enemies@.len() == old(self).enemies@.len(),
            forall|j: int|
                0 <= j < old(self).enemies@.len() && j != i ==> final(self).enemies@[j]
                    == old(self).enemies@[j],
            final(self).tower == old(self).tower,
            final(self).spawner == old(self).spawner,
            ({
                let s0 = old(self).enemies@[i as int];
                let s1 = final(self).enemies@[i as int];
                let e0 = s0.enemy@;
                let timer = crate::timer::ticked(e0.timer, delta as nat);
                let due = timer.times_finished > 0;
                let m = muzzle(e0.location, e0.direction);
                let can_fire = muzzle_in_reach(e0.location);
                &&& s1.id == s0.id
                &&& s1.shooter == s0.shooter
                &&& !s0.shooter ==> r == Shot::Hold && s1 == s0 && final(self).projectiles
                    == old(self).projectiles
                &&& s0.shooter && !(due && can_fire && e0.life > 0) ==> {
                    &&& r == Shot::Hold
                    &&& s1.enemy@ == (EnemyView { timer, ..e0 })
                    &&& s1.moving == s0.moving
                    &&& final(self).projectiles == old(self).projectiles
                }
                &&& s0.shooter && due && can_fire && e0.life > 0 && e0.bullets > 0 ==> {
                    &&& s1.enemy@ == (EnemyView { timer, bullets: (e0.bullets - 1) as nat, ..e0 })
                    &&& s1.moving == s0.moving
                    &&& final(self).projectiles@.len() == old(self).projectiles@.len() + 1
                    &&& final(self).projectiles@.drop_last() == old(self).projectiles@
                    &&& match r {
                        Shot::Fired { id, origin, velocity } => {
                            let p = final(self).projectiles@.last();
                            &&& p.id == id
                            &&& p.location == origin
                            &&& (origin.x as int, origin.y as int) == m
                            &&& Projectile::fresh(p.projectile@, origin, e0.projectile_type)
                            &&& !p.just_landed && !p.exploded
                            &&& VERTICAL_SPEED_MIN <= velocity.y < VERTICAL_SPEED_MAX
                            &&& (velocity.x as int, velocity.y as int) == launch_velocity_spec(
                                origin,
                                PLAYER_POSITION as int,
                                GRAVITY as int,
                                velocity.y as int,
                            )
                        },
                        _ => false,
                    }
                }
                &&& s0.shooter && due && can_fire && e0.life > 0 && e0.bullets == 0 ==> {
                    &&& r == Shot::Leave(e0.direction.escape_velocity_spec())
                    &&& s1.enemy@ == (EnemyView { timer, ..e0 })
                    &&& s1.moving
                    &&& final(self).projectiles == old(self).projectiles
                }
            }),
    {
        let mut s = self.enemies[i];
        if !s.shooter {
            return Shot::Hold;
        }
        let due = s.enemy.ready(delta);
        let at = s.enemy.location();
        let in_reach = -WORLD_LIMIT + MUZZLE_X <= at.x && at.x <= WORLD_LIMIT - MUZZLE_X && at.y
            <= WORLD_LIMIT - MUZZLE_Y;
        let mut shot = Shot::Hold;
        if due && in_reach && !s.enemy.is_dead() {
            match s.enemy.shoot(at) {
                ShootResult::Fire(p) => {
                    let id = self.fresh_id();
                    let origin = p.origin();
                    let velocity = p.calculate_velocity();
                    self.projectiles.push(
                        ProjectileSlot {
                            id,
                            projectile: p,
                            location: origin,
                            just_landed: false,
                            exploded: false,
                        },
                    );
                    shot = Shot::Fired { id, origin, velocity };
                    assert(self.projectiles@.drop_last() =~= old(self).projectiles@);
                },
                ShootResult::GoAway(v) => {
                    s.moving = true;
                    shot = Shot::Leave(v);
                },
                ShootResult::Pass => {},
            }
        }
        self.enemies.set(i, s);
        proof {
            assert forall|j: int| 0 <= j < self.enemies@.len() implies (
            #[trigger] self.enemies@[j]).enemy.wf() by {
                if j != i {
                    assert(self.enemies@[j] == old(self).enemies@[j]);
                }
            }
            assert forall|j: int| 0 <= j < self.projectiles@.len() implies (
            #[trigger] self.projectiles@[j]).wf() by {
                if j < old(self).projectiles@.len() {
                    assert(self.projectiles@[j] == old(self).projectiles@[j]);
                }
            }
        }
        shot
    }

    /// Records the engine's position of projectile `i`.
    pub fn observe_projectile(&mut self, i: usize, position: Vec2)
        requires
            old(self).wf(),
            i < old(self).projectiles@.len(),
            position.in_world(),
        ensures
            final(self).wf(),
            final(self).projectiles@ == old(self).projectiles@.update(
                i as int,
                ProjectileSlot { location: position, ..old(self).projectiles@[i as int] },
            ),
            final(self).enemies == old(self).enemies,
            final(self).tower == old(self).tower,
            final(self).spawner == old(self).spawner,
            final(self).explosions == old(self).explosions,
    {
        let mut p = self.projectiles[i];
        p.location = position;
        self.projectiles.set(i, p);
        proof {
            assert forall|j: int| 0 <= j < self.projectiles@.len() implies (
            #[trigger] self.projectiles@[j]).wf() by {
                if j != i {
                    assert(self.projectiles@[j] == old(self).projectiles@[j]);
                }
            }
        }
    }

    /// Reads the tick's contacts once and tags what they concern: the
    /// projectiles that hit a trigger or touched the ground, and the bumpers
    /// that deflected a projectile. Nothing else changes.
    pub fn collision_dectector(&mut self, events: &Vec<CollisionEvent>)
        requires
            old(self).wf(),
        ensures
            final(self).wf(),
            final(self).projectiles@.len() == old(self).projectiles@.len(),
            forall|j: int|
                0 <= j < old(self).projectiles@.len() ==> (#[trigger] final(self).projectiles@[j])@
                    == tagged(events@, old(self).projectiles@[j]@),
            final(self).bumpers@.len() == old(self).bumpers@.len(),
            forall|j: int|
                0 <= j < old(self).bumpers@.len() ==> {
                    let b0 = old(self).bumpers@[j];
                    let b1 = #[trigger] final(self).bumpers@[j];
                    &&& b1.id == b0.id
                    &&& b1.bumper == b0.bumper
                    &&& b1.activated == (b0.activated || bumped(events@, b0.id))
                },
            final(self).enemies == old(self).enemies,
            final(self).tower == old(self).tower,
            final(self).spawner == old(self).spawner,
            final(self).explosions == old(self).explosions,
            final(self).floating == old(self).floating,
    {
        let mut j: usize = 0;
        while j < self.projectiles.len()
            invariant
                old(self).wf(),
                self.projectiles@.len() == old(self).projectiles@.len(),
                0 <= j <= self.projectiles@.len(),
                forall|jj: int|
                    0 <= jj < j ==> (#[trigger] self.projectiles@[jj])@ == tagged(
                        events@,
                        old(self).projectiles@[jj]@,
                    ),
                forall|jj: int|
                    j <= jj < self.projectiles@.len() ==> #[trigger] self.projectiles@[jj]
                        == old(self).projectiles@[jj],
                forall|jj: int|
                    0 <= jj < self.projectiles@.len() ==> (#[trigger] self.projectiles@[jj]).wf(),
                self.enemies == old(self).enemies,
                self.tower == old(self).tower,
                self.spawner == old(self).spawner,
                self.explosions == old(self).explosions,
                self.floating == old(self).floating,
                self.bumpers == old(self).bumpers,
            decreases self.projectiles@.len() - j,
        {
            let mut p = self.projectiles[j];
            let ghost p0 = p;
            let mut k: usize = 0;
            while k < events.len()
                invariant
                    0 <= k <= events@.len(),
                    p@ == tagged(events@.take(k as int), p0@),
                    p.projectile == p0.projectile,
                    p.location == p0.location,
                    p.id == p0.id,
                decreases events@.len() - k,
            {
                proof {
                    assert(events@.take(k + 1).drop_last() =~= events@.take(k as int));
                    assert(events@.take(k + 1).last() == events@[k as int]);
                }
                match classify(&events[k]) {
                    Interaction::ProjectileExploded(id) => {
                        if id == p.id {
                            p.exploded = true;
                            p.just_landed = false;
                        }
                    },
                    Interaction::ProjectileLanded(id) => {
                        if id == p.id {
                            p.just_landed = true;
                        }
                    },
                    _ => {},
                }
                k = k + 1;
            }
            assert(events@.take(k as int) =~= events@);
            self.projectiles.set(j, p);
            j = j + 1;
        }
        let mut j: usize = 0;
        while j < self.bumpers.len()
            invariant
                old(self).wf(),
                self.bumpers@.len() == old(self).bumpers@.len(),
                0 <= j <= self.bumpers@.len(),
                forall|jj: int|
                    0 <= jj < j ==> {
                        let b0 = old(self).bumpers@[jj];
                        let b1 = #[trigger] self.bumpers@[jj];
                        &&& b1.id == b0.id
                        &&& b1.bumper == b0.bumper
                        &&& b1.activated == (b0.activated || bumped(events@, b0.id))
                    },
                forall|jj: int|
                    j <= jj < self.bumpers@.len() ==> #[trigger] self.bumpers@[jj]
                        == old(self).bumpers@[jj],
                self.projectiles@.len() == old(self).projectiles@.len(),
                forall|jj: int|
                    0 <= jj < old(self).projectiles@.len() ==> (#[trigger] self.projectiles@[jj])@
                        == tagged(events@, old(self).projectiles@[jj]@),
                forall|jj: int|
                    0 <= jj < self.projectiles@.len() ==> (#[trigger] self.projectiles@[jj]).wf(),
                self.enemies == old(self).enemies,
                self.tower == old(self).tower,
                self.spawner == old(self).spawner,
                self.explosions == old(self).explosions,
                self.floating == old(self).floating,
            decreases self.bumpers@.len() - j,
        {
            let mut b = self.bumpers[j];
            let ghost b0 = b;
            let mut k: usize = 0;
            while k < events.len()
                invariant
                    0 <= k <= events@.len(),
                    b.id == b0.id,
                    b.bumper == b0.bumper,
                    b.activated == (b0.activated || exists|kk: int|
                        0 <= kk < k && classify_spec(events@[kk]) == Interaction::BumperActivated(
                            b0.id,
                        )),
                decreases events@.len() - k,
            {
                if classify(&events[k]) == Interaction::BumperActivated(b.id) {
                    b.activated = true;
                }
                k = k + 1;
            }
            self.bumpers.set(j, b);
            j = j + 1;
        }
    }

    /// First step after collisions: each projectile tagged as landed
    /// bounces, or is marked exploded when it has no bounce left.
    pub fn landed_system(&mut self)
        requires
            old(self).wf(),
        ensures
            final(self).wf(),
            final(self).projectiles@.len() == old(self).projectiles@.len(),
            forall|j: int|
                0 <= j < old(self).projectiles@.len() ==> (#[trigger] final(self).projectiles@[j])@
                    == landed(old(self).projectiles@[j]@),
            final(self).enemies == old(self).enemies,
            final(self).tower == old(self).tower,
            final(self).spawner == old(self).spawner,
            final(self).explosions == old(self).explosions,
            final(self).bumpers == old(self).bumpers,
            final(self).floating == old(self).floating,
    {
        let mut j: usize = 0;
        while j < self.projectiles.len()
            invariant
                old(self).wf(),
                self.projectiles@.len() == old(self).projectiles@.len(),
                0 <= j <= self.projectiles@.len(),
                forall|jj: int|
                    0 <= jj < j ==> (#[trigger] self.projectiles@[jj])@ == landed(
                        old(self).projectiles@[jj]@,
                    ),
                forall|jj: int|
                    j <= jj < self.projectiles@.len() ==> #[trigger] self.projectiles@[jj]
                        == old(self).projectiles@[jj],
                forall|jj: int|
                    0 <= jj < self.projectiles@.len() ==> (#[trigger] self.projectiles@[jj]).wf(),
                self.enemies == old(self).enemies,
                self.tower == old(self).tower,
                self.spawner == old(self).spawner,
                self.explosions == old(self).explosions,
                self.floating == old(self).floating,
                self.bumpers == old(self).bumpers,
            decreases self.projectiles@.len() - j,
        {
            let mut p = self.projectiles[j];
            if p.just_landed {
                p.just_landed = false;
                match p.projectile.touch_ground() {
                    crate::projectile::LandEffect::Bounce => {},
                    crate::projectile::LandEffect::Explode => {
                        p.exploded = true;
                    },
                }
            }
            self.projectiles.set(j, p);
            j = j + 1;
        }
    }

    /// Second step: ages every projectile by `delta` microseconds; those
    /// whose lifetime has run out are marked exploded, with one explosion
    /// left at most.
    pub fn projectile_expired(&mut self, delta: u64)
        requires
            old(self).wf(),
        ensures
            final(self).wf(),
            final(self).projectiles@.len() == old(self).projectiles@.len(),
            forall|j: int|
                0 <= j < old(self).projectiles@.len() ==> (#[trigger] final(self).projectiles@[j])@
                    == expired(old(self).projectiles@[j]@, delta as nat),
            final(self).enemies == old(self).enemies,
            final(self).tower == old(self).tower,
            final(self).spawner == old(self).spawner,
            final(self).explosions == old(self).explosions,
            final(self).bumpers == old(self).bumpers,
            final(self).floating == old(self).floating,
    {
        let mut j: usize = 0;
        while j < self.projectiles.len()
            invariant
                old(self).wf(),
                self.projectiles@.len() == old(self).projectiles@.len(),
                0 <= j <= self.projectiles@.len(),
                forall|jj: int|
                    0 <= jj < j ==> (#[trigger] self.projectiles@[jj])@ == expired(
                        old(self).projectiles@[jj]@,
                        delta as nat,
                    ),
                forall|jj: int|
                    j <= jj < self.projectiles@.len() ==> #[trigger] self.projectiles@[jj]
                        == old(self).projectiles@[jj],
                forall|jj: int|
                    0 <= jj < self.projectiles@.len() ==> (#[trigger] self.projectiles@[jj]).wf(),
                self.enemies == old(self).enemies,
                self.tower == old(self).tower,
                self.spawner == old(self).spawner,
                self.explosions == old(self).explosions,
                self.floating == old(self).floating,
                self.bumpers == old(self).bumpers,
            decreases self.projectiles@.len() - j,
        {
            let mut p = self.projectiles[j];
            if p.projectile.run_out(delta) {
                p.exploded = true;
                p.just_landed = false;
            }
            self.projectiles.set(j, p);
            j = j + 1;
        }
    }

    /// Third step: the tick's explosions. The registry is emptied and then
    /// filled with one explosion from each projectile marked exploded that
    /// has one left; those projectiles lose their tags, and those with no
    /// explosion left are removed. A flash is requested for each explosion.
    pub fn exploded_system(&mut self) -> (r: Vec<Done>)
        requires
            old(self).wf(),
        ensures
            final(self).wf(),
            r@ == spent(slot_views(old(self).projectiles@)),
            slot_views(final(self).projectiles@) == blown_survivors(
                slot_views(old(self).projectiles@),
            ),
            final(self).explosions@ == blasts(slot_views(old(self).projectiles@)),
            final(self).enemies == old(self).enemies,
            final(self).tower == old(self).tower,
            final(self).spawner == old(self).spawner,
            final(self).bumpers == old(self).bumpers,
            final(self).floating == old(self).floating,
    {
        self.explosions.clear();
        let mut kept: Vec<ProjectileSlot> = Vec::new();
        let mut gone: Vec<Done> = Vec::new();
        let mut i: usize = 0;
        let ghost olds = slot_views(self.projectiles@);
        while i < self.projectiles.len()
            invariant
                old(self).wf(),
                self.projectiles == old(self).projectiles,
                olds == slot_views(old(self).projectiles@),
                0 <= i <= self.projectiles@.len(),
                slot_views(kept@) == blown_survivors(olds.take(i as int)),
                gone@ == spent(olds.take(i as int)),
                self.explosions@ == blasts(olds.take(i as int)),
                self.explosions.wf(),
                forall|jj: int| 0 <= jj < kept@.len() ==> (#[trigger] kept@[jj]).wf(),
                self.enemies == old(self).enemies,
                self.tower == old(self).tower,
                self.spawner == old(self).spawner,
                self.floating == old(self).floating,
                self.bumpers == old(self).bumpers,
            decreases self.projectiles@.len() - i,
        {
            let mut p = self.projectiles[i];
            proof {
                assert(olds.take(i + 1).drop_last() =~= olds.take(i as int));
                assert(olds.take(i + 1).last() == p@);
            }
            if p.exploded {
                p.exploded = false;
                p.just_landed = false;
                match p.projectile.explode(p.location) {
                    Some(e) => {
                        let flash = e.get_flasher();
                        self.explosions.add(e);
                        self.flashes.push(flash);
                    },
                    None => {},
                }
                if !p.projectile.done() {
                    kept.push(p);
                    proof {
                        assert(slot_views(kept@) =~= slot_views(kept@.drop_last()).push(p@));
                    }
                } else {
                    gone.push(Done { id: p.id });
                }
            } else {
                kept.push(p);
                proof {
                    assert(slot_views(kept@) =~= slot_views(kept@.drop_last()).push(p@));
                }
            }
            i = i + 1;
        }
        assert(olds.take(i as int) =~= olds);
        self.projectiles = kept;
        gone
    }

    /// Fourth step, first half: the tick's explosions damage every enemy
    /// whose circle they reach; a flash marks each enemy that this damage
    /// kills (once: an enemy already dead gets none).
    pub fn damage_enemy_system(&mut self)
        requires
            old(self).wf(),
        ensures
            final(self).wf(),
            final(self).enemies@.len() == old(self).enemies@.len(),
            forall|j: int|
                0 <= j < old(self).enemies@.len() ==> {
                    let s0 = old(self).enemies@[j];
                    let s1 = #[trigger] final(self).enemies@[j];
                    &&& s1.id == s0.id
                    &&& s1.moving == s0.moving
                    &&& s1.shooter == s0.shooter
                    &&& s1.enemy@ == enemy_damaged(s0.enemy@, old(self).explosions@)
                },
            flashes_added(
                old(self).flashes@,
                final(self).flashes@,
                death_spots(old(self).enemies@, old(self).explosions@),
            ),
            final(self).tower == old(self).tower,
            final(self).projectiles == old(self).projectiles,
            final(self).explosions == old(self).explosions,
            final(self).spawner == old(self).spawner,
            final(self).bumpers == old(self).bumpers,
            final(self).floating == old(self).floating,
    {
        let mut j: usize = 0;
        proof {
            assert(old(self).enemies@.take(0) =~= Seq::<EnemySlot>::empty());
            assert(self.flashes@.subrange(0, self.flashes@.len() as int) =~= self.flashes@);
        }
        while j < self.enemies.len()
            invariant
                old(self).wf(),
                self.enemies@.len() == old(self).enemies@.len(),
                0 <= j <= self.enemies@.len(),
                forall|jj: int|
                    0 <= jj < j ==> {
                        let s0 = old(self).enemies@[jj];
                        let s1 = #[trigger] self.enemies@[jj];
                        &&& s1.id == s0.id
                        &&& s1.moving == s0.moving
                        &&& s1.shooter == s0.shooter
                        &&& s1.enemy@ == enemy_damaged(s0.enemy@, old(self).explosions@)
                    },
                forall|jj: int|
                    j <= jj < self.enemies@.len() ==> #[trigger] self.enemies@[jj]
                        == old(self).enemies@[jj],
                forall|jj: int|
                    0 <= jj < self.enemies@.len() ==> (#[trigger] self.enemies@[jj]).enemy.wf(),
                self.projectiles == old(self).projectiles,
                self.tower == old(self).tower,
                self.spawner == old(self).spawner,
                self.explosions == old(self).explosions,
                self.floating == old(self).floating,
                self.bumpers == old(self).bumpers,
                flashes_added(
                    old(self).flashes@,
                    self.flashes@,
                    death_spots(old(self).enemies@.take(j as int), old(self).explosions@),
                ),
            decreases self.enemies@.len() - j,
        {
            let mut s = self.enemies[j];
            let ghost spots = death_spots(old(self).enemies@.take(j as int), old(self).explosions@);
            proof {
                assert(old(self).enemies@.take(j + 1).drop_last() =~= old(self).enemies@.take(
                    j as int,
                ));
                assert(old(self).enemies@.take(j + 1).last() == s);
            }
            let was_alive = !s.enemy.is_dead();
            let (center, radius) = s.enemy.as_circle();
            match self.explosions.damage_to_circle(center, radius) {
                Some(d) => {
                    s.enemy.take_damage(d);
                    if was_alive && s.enemy.is_dead() {
                        let ghost before = self.flashes@;
                        self.flashes.push(Flasher::new(center, FlasherType::EnemyDeath));
                        proof {
                            let n = old(self).flashes@.len();
                            let spots1 = spots.push(center);
                            assert(self.flashes@.subrange(0, n as int) =~= before.subrange(
                                0,
                                n as int,
                            ));
                            assert forall|k: int| 0 <= k < spots1.len() implies Flasher::is_new(
                                #[trigger] self.flashes@[n + k],
                                spots1[k],
                                FlasherType::EnemyDeath,
                            ) by {
                                if k < spots.len() {
                                    assert(self.flashes@[n + k] == before[n + k]);
                                }
                            }
                        }
                    }
                },
                None => {},
            }
            self.enemies.set(j, s);
            j = j + 1;
        }
        assert(old(self).enemies@.take(j as int) =~= old(self).enemies@);
    }

    /// Fourth step, second half: the tick's explosions damage the tower
    /// where they reach its rectangle; a destroyed tower is marked by a
    /// flash and removed.
    pub fn damage_tower_system(&mut self)
        requires
            old(self).wf(),
        ensures
            final(self).wf(),
            old(self).tower.is_none() ==> final(self).tower.is_none() && final(self).flashes
                == old(self).flashes,
            old(self).tower.is_some() ==> {
                let t0 = old(self).tower.unwrap();
                let rect = t0.rect_spec();
                let life = damaged(
                    t0.life_spec(),
                    rect_outcome(old(self).explosions@, rect.0, rect.1),
                );
                &&& life <= 0 ==> {
                    &&& final(self).tower.is_none()
                    &&& flashes_added(
                        old(self).flashes@,
                        final(self).flashes@,
                        seq![t0.location_spec()],
                    )
                }
                &&& life > 0 ==> {
                    &&& final(self).tower.is_some()
                    &&& final(self).tower.unwrap().life_spec() == life
                    &&& final(self).tower.unwrap().location_spec() == t0.location_spec()
                    &&& final(self).flashes == old(self).flashes
                }
            },
            final(self).enemies == old(self).enemies,
            final(self).projectiles == old(self).projectiles,
            final(self).explosions == old(self).explosions,
            final(self).spawner == old(self).spawner,
            final(self).bumpers == old(self).bumpers,
            final(self).floating == old(self).floating,
    {
        match self.tower {
            Some(t) => {
                let mut t = t;
                let (top_left, bottom_right) = t.as_rect();
                match self.explosions.damage_to_rect(top_left, bottom_right) {
                    Some(d) => {
                        t.take_damage(d);
                        if t.is_dead() {
                            self.flashes.push(Flasher::new(t.translation(), FlasherType::EnemyDeath));
                            self.tower = None;
                            proof {
                                let n = old(self).flashes@.len();
                                assert(self.flashes@.subrange(0, n as int) =~= old(self).flashes@);
                                assert(self.flashes@[n as int] == self.flashes@.last());
                            }
                        } else {
                            self.tower = Some(t);
                        }
                    },
                    None => {},
                }
            },
            None => {},
        }
    }

    /// Each bumper that deflected a projectile in this tick loses a hit
    /// point and drops the tag.
    pub fn activated_system(&mut self)
        requires
            old(self).wf(),
        ensures
            final(self).wf(),
            final(self).bumpers@.len() == old(self).bumpers@.len(),
            forall|j: int|
                0 <= j < old(self).bumpers@.len() ==> {
                    let b0 = old(self).bumpers@[j];
                    let b1 = #[trigger] final(self).bumpers@[j];
                    &&& b1.id == b0.id
                    &&& !b1.activated
                    &&& b1.bumper == if b0.activated {
                        Bumper { life: worn(b0.bumper.life), ..b0.bumper }
                    } else {
                        b0.bumper
                    }
                },
            final(self).projectiles == old(self).projectiles,
            final(self).enemies == old(self).enemies,
            final(self).explosions == old(self).explosions,
            final(self).spawner == old(self).spawner,
            final(self).tower == old(self).tower,
            final(self).floating == old(self).floating,
    {
        let mut j: usize = 0;
        while j < self.bumpers.len()
            invariant
                old(self).wf(),
                self.bumpers@.len() == old(self).bumpers@.len(),
                0 <= j <= self.bumpers@.len(),
                forall|jj: int|
                    0 <= jj < j ==> {
                        let b0 = old(self).bumpers@[jj];
                        let b1 = #[trigger] self.bumpers@[jj];
                        &&& b1.id == b0.id
                        &&& !b1.activated
                        &&& b1.bumper == if b0.activated {
                            Bumper { life: worn(b0.bumper.life), ..b0.bumper }
                        } else {
                            b0.bumper
                        }
                    },
                forall|jj: int|
                    j <= jj < self.bumpers@.len() ==> #[trigger] self.bumpers@[jj]
                        == old(self).bumpers@[jj],
                self.projectiles == old(self).projectiles,
                self.enemies == old(self).enemies,
                self.tower == old(self).tower,
                self.spawner == old(self).spawner,
                self.explosions == old(self).explosions,
                self.floating == old(self).floating,
            decreases self.bumpers@.len() - j,
        {
            let mut b = self.bumpers[j];
            if b.activated {
                b.bumper.take_damage();
                b.activated = false;
            }
            self.bumpers.set(j, b);
            j = j + 1;
        }
    }

    /// The player's placement action: fixes the floating bumper at
    /// `position` and `angle` when there is one, and otherwise brings in a
    /// new floating bumper. There is never more than one floating bumper.
    pub fn spawn_or_place_bumper(&mut self, position: Vec2, angle: i64) -> (r: BumperAction)
        requires
            old(self).wf(),
        ensures
            final(self).wf(),
            old(self).floating.is_some() ==> {
                &&& final(self).floating.is_none()
                &&& final(self).bumpers@.len() == old(self).bumpers@.len() + 1
                &&& final(self).bumpers@.drop_last() == old(self).bumpers@
                &&& r == BumperAction::Placed(final(self).bumpers@.last().id)
                &&& final(self).bumpers@.last().bumper.placement == Some(
                    Placement { position, angle },
                )
                &&& final(self).bumpers@.last().bumper.life == old(self).floating.unwrap().life
                &&& !final(self).bumpers@.last().activated
            },
            old(self).floating.is_none() ==> {
                &&& r == BumperAction::Spawned
                &&& final(self).floating.is_some()
                &&& final(self).floating.unwrap().placement.is_none()
                &&& final(self).floating.unwrap().life == final(self).floating.unwrap().initial_life
                &&& exists|t: crate::bumper::BumperType| Bumper::fresh(final(self).floating.unwrap(), t)
                &&& final(self).bumpers == old(self).bumpers
            },
            final(self).projectiles == old(self).projectiles,
            final(self).enemies == old(self).enemies,
            final(self).spawner == old(self).spawner,
            final(self).tower == old(self).tower,
    {
        match self.floating {
            Some(b) => {
                let mut b = b;
                b.fix(position, angle);
                let id = self.fresh_id();
                self.bumpers.push(BumperSlot { id, bumper: b, activated: false });
                self.floating = None;
                assert(self.bumpers@.drop_last() =~= old(self).bumpers@);
                BumperAction::Placed(id)
            },
            None => {
                self.floating = Some(Bumper::create_random());
                BumperAction::Spawned
            },
        }
    }

    /// Removes the projectiles that have left the area where bodies are kept.
    fn remove_stray_projectiles(&mut self) -> (r: Vec<Done>)
        requires
            old(self).wf(),
        ensures
            final(self).wf(),
            final(self).projectiles@ == old(self).projectiles@.filter(
                |s: ProjectileSlot| !out_of_bounds(s.location),
            ),
            r@ == stray_projectiles(old(self).projectiles@),
            final(self).enemies == old(self).enemies,
            final(self).explosions == old(self).explosions,
            final(self).spawner == old(self).spawner,
            final(self).tower == old(self).tower,
            final(self).bumpers == old(self).bumpers,
            final(self).floating == old(self).floating,
    {
        let mut kept: Vec<ProjectileSlot> = Vec::new();
        let mut gone: Vec<Done> = Vec::new();
        let mut i: usize = 0;
        let ghost olds = self.projectiles@;
        while i < self.projectiles.len()
            invariant
                self.projectiles@ == olds,
                olds == old(self).projectiles@,
                old(self).wf(),
                0 <= i <= olds.len(),
                kept@ == olds.take(i as int).filter(|s: ProjectileSlot| !out_of_bounds(s.location)),
                gone@ == stray_projectiles(olds.take(i as int)),
                forall|j: int| 0 <= j < kept@.len() ==> (#[trigger] kept@[j]).wf(),
            decreases olds.len() - i,
        {
            let s = self.projectiles[i];
            proof {
                assert(olds.take(i + 1).drop_last() =~= olds.take(i as int));
                assert(olds.take(i + 1).last() == s);
                reveal(Seq::filter);
            }
            let p = s.location;
            if p.y < -100_000 || p.x < -100_000 || p.x > 1_100_000 || p.y > 20_000_000 {
                gone.push(Done { id: s.id });
            } else {
                kept.push(s);
            }
            i = i + 1;
        }
        assert(olds.take(i as int) =~= olds);
        self.projectiles = kept;
        gone
    }

    /// Removes the enemies that have left the area where bodies are kept,
    /// telling the spawner of each.
    fn remove_stray_enemies(&mut self) -> (r: Vec<Done>)
        requires
            old(self).wf(),
        ensures
            final(self).wf(),
            final(self).enemies@ == old(self).enemies@.filter(
                |s: EnemySlot| !out_of_bounds(s.enemy@.location),
            ),
            r@ == stray_enemies(old(self).enemies@),
            final(self).spawner@ == (SpawnerView {
                enemy_count: final(self).enemies@.len(),
                ..old(self).spawner@
            }),
            final(self).projectiles == old(self).projectiles,
            final(self).explosions == old(self).explosions,
            final(self).tower == old(self).tower,
            final(self).bumpers == old(self).bumpers,
            final(self).floating == old(self).floating,
    {
        let mut kept: Vec<EnemySlot> = Vec::new();
        let mut gone: Vec<Done> = Vec::new();
        let mut i: usize = 0;
        let ghost olds = self.enemies@;
        while i < self.enemies.len()
            invariant
                self.enemies@ == olds,
                olds == old(self).enemies@,
                self.projectiles == old(self).projectiles,
                self.explosions == old(self).explosions,
                self.tower == old(self).tower,
                self.bumpers == old(self).bumpers,
                self.floating == old(self).floating,
                old(self).wf(),
                0 <= i <= olds.len(),
                kept@ == olds.take(i as int).filter(
                    |s: EnemySlot| !out_of_bounds(s.enemy@.location),
                ),
                gone@ == stray_enemies(olds.take(i as int)),
                gone@.len() + kept@.len() == i,
                self.spawner.wf(),
                self.spawner@ == (SpawnerView {
                    enemy_count: (olds.len() - gone@.len()) as nat,
                    ..old(self).spawner@
                }),
                forall|j: int| 0 <= j < olds.len() ==> (#[trigger] olds[j]).enemy.wf(),
                forall|j: int| 0 <= j < kept@.len() ==> (#[trigger] kept@[j]).enemy.wf(),
            decreases olds.len() - i,
        {
            let s = self.enemies[i];
            proof {
                assert(olds.take(i + 1).drop_last() =~= olds.take(i as int));
                assert(olds.take(i + 1).last() == s);
                reveal(Seq::filter);
            }
            let p = s.enemy.location();
            if p.y < -100_000 || p.x < -100_000 || p.x > 1_100_000 || p.y > 20_000_000 {
                self.spawner.despawn();
                gone.push(Done { id: s.id });
            } else {
                kept.push(s);
            }
            i = i + 1;
        }
        assert(olds.take(i as int) =~= olds);
        self.enemies = kept;
        gone
    }

    /// Removes every body, projectile or enemy, that has left the area where
    /// bodies are kept, telling the spawner of each enemy, and returns their
    /// ids: the projectiles' first.
    pub fn despawner(&mut self) -> (r: Vec<Done>)
        requires
            old(self).wf(),
        ensures
            final(self).wf(),
            final(self).projectiles@ == old(self).projectiles@.filter(
                |s: ProjectileSlot| !out_of_bounds(s.location),
            ),
            final(self).enemies@ == old(self).enemies@.filter(
                |s: EnemySlot| !out_of_bounds(s.enemy@.location),
            ),
            r@ == stray_projectiles(old(self).projectiles@) + stray_enemies(old(self).enemies@),
            final(self).spawner@ == (SpawnerView {
                enemy_count: final(self).enemies@.len(),
                ..old(self).spawner@
            }),
            final(self).explosions == old(self).explosions,
            final(self).tower == old(self).tower,
            final(self).bumpers == old(self).bumpers,
            final(self).floating == old(self).floating,
    {
        let mut gone = self.remove_stray_projectiles();
        let mut more = self.remove_stray_enemies();
        gone.append(&mut more);
        gone
    }

    /// Empties the list of requested flashes.
    pub fn clear_flashes(&mut self)
        requires
            old(self).wf(),
        ensures
            final(self).wf(),
            final(self).flashes@.len() == 0,
            final(self).projectiles == old(self).projectiles,
            final(self).enemies == old(self).enemies,
            final(self).tower == old(self).tower,
            final(self).spawner == old(self).spawner,
    {
        self.flashes.clear();
    }

    /// The phases after collision detection, strictly in this order:
    /// landings, lifetime expiry, explosions (which replace the registry
    /// with this tick's explosions), damage to enemies and the tower, and
    /// wear on deflecting bumpers.
    pub fn post_collision(&mut self, delta: u64) -> (r: Vec<Done>)
        requires
            old(self).wf(),
        ensures
            final(self).wf(),
            r@ == spent(settled(slot_views(old(self).projectiles@), delta as nat)),
            slot_views(final(self).projectiles@) == blown_survivors(
                settled(slot_views(old(self).projectiles@), delta as nat),
            ),
            final(self).explosions@ == blasts(settled(slot_views(old(self).projectiles@), delta as nat)),
            final(self).enemies@.len() == old(self).enemies@.len(),
            forall|j: int|
                0 <= j < old(self).enemies@.len() ==> (#[trigger] final(self).enemies@[j]).enemy@
                    == enemy_damaged(old(self).enemies@[j].enemy@, final(self).explosions@),
            old(self).tower.is_none() ==> final(self).tower.is_none(),
            old(self).tower.is_some() ==> {
                let t0 = old(self).tower.unwrap();
                let rect = t0.rect_spec();
                let life = damaged(
                    t0.life_spec(),
                    rect_outcome(final(self).explosions@, rect.0, rect.1),
                );
                &&& life <= 0 ==> final(self).tower.is_none()
                &&& life > 0 ==> final(self).tower.is_some() && final(self).tower.unwrap().life_spec()
                    == life
            },
            final(self).bumpers@.len() == old(self).bumpers@.len(),
            forall|j: int|
                0 <= j < old(self).bumpers@.len() ==> {
                    let b0 = old(self).bumpers@[j];
                    let b1 = #[trigger] final(self).bumpers@[j];
                    &&& b1.id == b0.id
                    &&& !b1.activated
                    &&& b1.bumper == if b0.activated {
                        Bumper { life: worn(b0.bumper.life), ..b0.bumper }
                    } else {
                        b0.bumper
                    }
                },
            final(self).floating == old(self).floating,
            final(self).spawner == old(self).spawner,
    {
        self.landed_system();
        self.projectile_expired(delta);
        proof {
            assert(slot_views(self.projectiles@) =~= settled(
                slot_views(old(self).projectiles@),
                delta as nat,
            ));
        }
        let gone = self.exploded_system();
        self.damage_enemy_system();
        self.damage_tower_system();
        self.activated_system();
        gone
    }
}

} // verus!
