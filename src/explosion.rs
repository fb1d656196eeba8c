use vstd::prelude::*;

use crate::flasher::{Flasher, FlasherType};
use crate::geometry::{dist_sq, distance_squared, Vec2, WORLD_LIMIT};

verus! {

/// The kinds of explosion that projectiles produce.
#[derive(Clone, Copy, Debug, PartialEq, Eq, Structural)]
pub enum ExplosionType {
    WeakShot,
    BigShot,
    HugeShot,
    HotShot,
    MiniShot,
}

/// Damage radius (milli-units), damage (hit points) and flash of an explosion.
#[derive(Clone, Copy, Debug, PartialEq, Eq, Structural)]
pub struct ExplosionStats {
    pub radius: i64,
    pub damage: u64,
    pub flasher: FlasherType,
}

impl ExplosionType {
    pub open spec fn stats_spec(self) -> ExplosionStats {
        match self {
            ExplosionType::WeakShot => ExplosionStats { radius: 12_000, damage: 10, flasher: FlasherType::WeakShot },
            ExplosionType::BigShot => ExplosionStats { radius: 20_000, damage: 15, flasher: FlasherType::BigShot },
            ExplosionType::HugeShot => ExplosionStats { radius: 24_000, damage: 20, flasher: FlasherType::HugeShot },
            ExplosionType::HotShot => ExplosionStats { radius: 15_000, damage: 40, flasher: FlasherType::HotShot },
            ExplosionType::MiniShot => ExplosionStats { radius: 7_000, damage: 8, flasher: FlasherType::MiniShot },
        }
    }

    pub fn get_stats(&self) -> (r: ExplosionStats)
        ensures
            r == self.stats_spec(),
    {
        match self {
            ExplosionType::WeakShot => ExplosionStats { radius: 12_000, damage: 10, flasher: FlasherType::WeakShot },
            ExplosionType::BigShot => ExplosionStats { radius: 20_000, damage: 15, flasher: FlasherType::BigShot },
            ExplosionType::HugeShot => ExplosionStats { radius: 24_000, damage: 20, flasher: FlasherType::HugeShot },
            ExplosionType::HotShot => ExplosionStats { radius: 15_000, damage: 40, flasher: FlasherType::HotShot },
            ExplosionType::MiniShot => ExplosionStats { radius: 7_000, damage: 8, flasher: FlasherType::MiniShot },
        }
    }
}

/// One area-damage event: everything within `radius` of `location` takes
/// `damage`.
#[derive(Clone, Copy, Debug, PartialEq, Eq, Structural)]
pub struct Explosion {
    pub location: Vec2,
    pub damage: u64,
    pub radius: i64,
    pub flasher_type: FlasherType,
}

impl Explosion {
    /// Inside the world, with a radius that is no larger than the world.
    pub open spec fn wf(self) -> bool {
        self.location.in_world() && 0 <= self.radius <= WORLD_LIMIT
    }

    /// The explosion of the given type at `location`.
    pub open spec fn of_type(location: Vec2, t: ExplosionType) -> Explosion {
        Explosion {
            location,
            damage: t.stats_spec().damage,
            radius: t.stats_spec().radius,
            flasher_type: t.stats_spec().flasher,
        }
    }

    pub fn new(location: Vec2, t: ExplosionType) -> (r: Explosion)
        requires
            location.in_world(),
        ensures
            r == Explosion::of_type(location, t),
            r.wf(),
    {
        let stats = t.get_stats();
        Explosion { location, radius: stats.radius, damage: stats.damage, flasher_type: stats.flasher }
    }

    /// The flash that shows this explosion.
    pub fn get_flasher(&self) -> (r: Flasher)
        ensures
            r.wf(),
            r.location == self.location,
            r.radius == self.flasher_type.stats_spec().radius,
    {
        Flasher::new(self.location, self.flasher_type)
    }
}

/// The explosion reaches the circle: the distance between the centres is
/// less than the sum of the radii.
pub open spec fn hits_circle(e: Explosion, center: Vec2, radius: int) -> bool {
    dist_sq(e.location, center) < (e.radius + radius) * (e.radius + radius)
}

/// The explosion's disc overlaps the axis-aligned rectangle given by its
/// top-left and bottom-right corners (y grows upward).
pub open spec fn hits_rect(e: Explosion, top_left: Vec2, bottom_right: Vec2) -> bool {
    &&& e.location.x + e.radius > top_left.x
    &&& e.location.x - e.radius < bottom_right.x
    &&& e.location.y + e.radius > bottom_right.y
    &&& e.location.y - e.radius < top_left.y
}

/// Total damage that the explosions in `s` deal to a circle.
pub open spec fn circle_damage(s: Seq<Explosion>, center: Vec2, radius: int) -> int
    decreases s.len(),
{
    if s.len() == 0 {
        0
    } else {
        circle_damage(s.drop_last(), center, radius) + if hits_circle(s.last(), center, radius) {
            s.last().damage as int
        } else {
            0
        }
    }
}

/// Total damage that the explosions in `s` deal to a rectangle.
pub open spec fn rect_damage(s: Seq<Explosion>, top_left: Vec2, bottom_right: Vec2) -> int
    decreases s.len(),
{
    if s.len() == 0 {
        0
    } else {
        rect_damage(s.drop_last(), top_left, bottom_right) + if hits_rect(
            s.last(),
            top_left,
            bottom_right,
        ) {
            s.last().damage as int
        } else {
            0
        }
    }
}

/// Some explosion in `s` reaches the circle.
pub open spec fn circle_hit(s: Seq<Explosion>, center: Vec2, radius: int) -> bool
    decreases s.len(),
{
    s.len() > 0 && (circle_hit(s.drop_last(), center, radius) || hits_circle(
        s.last(),
        center,
        radius,
    ))
}

/// Some explosion in `s` reaches the rectangle.
pub open spec fn rect_hit(s: Seq<Explosion>, top_left: Vec2, bottom_right: Vec2) -> bool
    decreases s.len(),
{
    s.len() > 0 && (rect_hit(s.drop_last(), top_left, bottom_right) || hits_rect(
        s.last(),
        top_left,
        bottom_right,
    ))
}

/// `None` when nothing hit; otherwise the total damage of the hits (which
/// may be zero), capped at the largest `u64`.
pub open spec fn damage_outcome(hit: bool, total: int) -> Option<u64> {
    if !hit {
        None
    } else if total > u64::MAX {
        Some(u64::MAX)
    } else {
        Some(total as u64)
    }
}

/// What `damage_to_circle` returns for the explosions `s`.
pub open spec fn circle_outcome(s: Seq<Explosion>, center: Vec2, radius: int) -> Option<u64> {
    damage_outcome(circle_hit(s, center, radius), circle_damage(s, center, radius))
}

/// What `damage_to_rect` returns for the explosions `s`.
pub open spec fn rect_outcome(s: Seq<Explosion>, top_left: Vec2, bottom_right: Vec2) -> Option<
    u64,
> {
    damage_outcome(rect_hit(s, top_left, bottom_right), rect_damage(s, top_left, bottom_right))
}

/// The explosions of the current tick.
pub struct ActiveExplosions {
    list: Vec<Explosion>,
}

impl View for ActiveExplosions {
    type V = Seq<Explosion>;

    closed spec fn view(&self) -> Seq<Explosion> {
        self.list@
    }
}

/// Adds `d` to `acc`, stopping at the largest `u64`.
fn add_capped(acc: u64, d: u64) -> (r: u64)
    ensures
        r == if acc + d > u64::MAX {
            u64::MAX as int
        } else {
            acc + d
        },
{
    if acc > u64::MAX - d {
        u64::MAX
    } else {
        acc + d
    }
}

impl ActiveExplosions {
    /// Every explosion held is well formed.
    pub open spec fn wf(&self) -> bool {
        forall|i: int| 0 <= i < self@.len() ==> (#[trigger] self@[i]).wf()
    }

    pub fn new() -> (r: ActiveExplosions)
        ensures
            r@ == Seq::<Explosion>::empty(),
            r.wf(),
    {
        ActiveExplosions { list: Vec::new() }
    }

    pub fn clear(&mut self)
        ensures
            final(self)@ == Seq::<Explosion>::empty(),
            final(self).wf(),
    {
        self.list.clear();
    }

    pub fn add(&mut self, e: Explosion)
        requires
            old(self).wf(),
            e.wf(),
        ensures
            final(self)@ == old(self)@.push(e),
            final(self).wf(),
    {
        self.list.push(e);
        proof {
            assert forall|i: int| 0 <= i < self@.len() implies (#[trigger] self@[i]).wf() by {
                if i < old(self)@.len() {
                    assert(self@[i] == old(self)@[i]);
                }
            }
        }
    }

    pub fn len(&self) -> (r: usize)
        ensures
            r == self@.len(),
    {
        self.list.len()
    }

    pub fn get(&self, i: usize) -> (r: Explosion)
        requires
            i < self@.len(),
        ensures
            r == self@[i as int],
    {
        self.list[i]
    }

    /// Damage dealt to the circle of the given centre and radius by all
    /// explosions of this tick, or `None` when none reaches it (a hit that
    /// deals no damage gives `Some(0)`).
    pub fn damage_to_circle(&self, center: Vec2, radius: i64) -> (r: Option<u64>)
        requires
            self.wf(),
            center.in_world(),
            0 <= radius <= WORLD_LIMIT,
        ensures
            r == circle_outcome(self@, center, radius as int),
    {
        let mut damage: u64 = 0;
        let mut hit = false;
        let mut i: usize = 0;
        while i < self.list.len()
            invariant
                self.wf(),
                hit == circle_hit(self@.take(i as int), center, radius as int),
                center.in_world(),
                0 <= radius <= WORLD_LIMIT,
                0 <= i <= self@.len(),
                0 <= circle_damage(self@.take(i as int), center, radius as int),
                damage == if circle_damage(self@.take(i as int), center, radius as int)
                    > u64::MAX {
                    u64::MAX as int
                } else {
                    circle_damage(self@.take(i as int), center, radius as int)
                },
            decreases self@.len() - i,
        {
            let e = self.list[i];
            assert(self@[i as int].wf());
            let reach: i128 = e.radius as i128 + radius as i128;
            let d2 = distance_squared(e.location, center);
            assert(reach * reach <= 4 * WORLD_LIMIT * WORLD_LIMIT) by (nonlinear_arith)
                requires
                    0 <= reach <= 2 * WORLD_LIMIT,
            ;
            proof {
                assert(self@.take(i + 1).drop_last() =~= self@.take(i as int));
                assert(self@.take(i + 1).last() == e);
            }
            if d2 < reach * reach {
                damage = add_capped(damage, e.damage);
                hit = true;
            }
            i = i + 1;
        }
        assert(self@.take(i as int) =~= self@);
        if hit {
            Some(damage)
        } else {
            None
        }
    }

    /// Damage dealt to the rectangle with the given corners by all
    /// explosions of this tick, or `None` when none reaches it (a hit that
    /// deals no damage gives `Some(0)`).
    pub fn damage_to_rect(&self, top_left: Vec2, bottom_right: Vec2) -> (r: Option<u64>)
        requires
            self.wf(),
            top_left.in_world(),
            bottom_right.in_world(),
        ensures
            r == rect_outcome(self@, top_left, bottom_right),
    {
        let mut damage: u64 = 0;
        let mut hit = false;
        let mut i: usize = 0;
        while i < self.list.len()
            invariant
                self.wf(),
                hit == rect_hit(self@.take(i as int), top_left, bottom_right),
                top_left.in_world(),
                bottom_right.in_world(),
                0 <= i <= self@.len(),
                0 <= rect_damage(self@.take(i as int), top_left, bottom_right),
                damage == if rect_damage(self@.take(i as int), top_left, bottom_right)
                    > u64::MAX {
                    u64::MAX as int
                } else {
                    rect_damage(self@.take(i as int), top_left, bottom_right)
                },
            decreases self@.len() - i,
        {
            let e = self.list[i];
            assert(self@[i as int].wf());
            proof {
                assert(self@.take(i + 1).drop_last() =~= self@.take(i as int));
                assert(self@.take(i + 1).last() == e);
            }
            if e.location.x + e.radius > top_left.x && e.location.x - e.radius < bottom_right.x
                && e.location.y + e.radius > bottom_right.y && e.location.y - e.radius
                < top_left.y {
                damage = add_capped(damage, e.damage);
                hit = true;
            }
            i = i + 1;
        }
        assert(self@.take(i as int) =~= self@);
        if hit {
            Some(damage)
        } else {
            None
        }
    }
}

} // verus!
