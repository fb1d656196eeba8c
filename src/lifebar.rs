use vstd::prelude::*;

use crate::flasher::Tint;
use crate::geometry::{in_range, Vec2};

verus! {

/// Longest bar, in milli-units, drawn for full life.
pub const MAX_LENGTH: i64 = 15_000;

/// Shortest bar, in milli-units.
pub const MIN_LENGTH: i64 = 1_000;

/// Offset from the bar's anchor to where it is drawn, in milli-units.
pub const BAR_OFFSET_X: i64 = -10_000;

pub const BAR_OFFSET_Y: i64 = 12_000;

/// Length of the bar for `life` out of `max_life`: proportional, rounded
/// down, and kept between the shortest and the longest bar.
pub open spec fn bar_length(life: int, max_life: int) -> int {
    let l = MAX_LENGTH * life / max_life;
    if l < MIN_LENGTH {
        MIN_LENGTH as int
    } else if l > MAX_LENGTH {
        MAX_LENGTH as int
    } else {
        l
    }
}

/// Colour of the bar: red under a fifth of full life, orange under half,
/// green from half on.
pub open spec fn bar_tint(life: int, max_life: int) -> Tint {
    if 5 * life < max_life {
        Tint::Red
    } else if 2 * life < max_life {
        Tint::Orange
    } else {
        Tint::Green
    }
}

/// A health indicator drawn above a damageable entity.
#[derive(Clone, Copy, Debug, PartialEq, Eq, Structural)]
pub struct Lifebar {
    pub origin: Vec2,
    pub life: i64,
    pub max_life: i64,
}

impl Lifebar {
    pub open spec fn wf(self) -> bool {
        &&& 0 < self.life <= self.max_life
        &&& self.origin.in_world()
    }

    /// The bar for `life` out of `max_life`, anchored at `anchor`.
    pub fn new(anchor: Vec2, life: i64, max_life: i64) -> (r: Lifebar)
        requires
            0 < life <= max_life,
            in_range(anchor.x + BAR_OFFSET_X),
            in_range(anchor.y + BAR_OFFSET_Y),
        ensures
            r.wf(),
            r.origin.x == anchor.x + BAR_OFFSET_X,
            r.origin.y == anchor.y + BAR_OFFSET_Y,
            r.life == life,
            r.max_life == max_life,
    {
        Lifebar { origin: Vec2 { x: anchor.x + BAR_OFFSET_X, y: anchor.y + BAR_OFFSET_Y }, life, max_life }
    }

    /// Length of the bar, in milli-units.
    pub fn length(&self) -> (r: i64)
        requires
            self.wf(),
        ensures
            r == bar_length(self.life as int, self.max_life as int),
    {
        let l: i128 = (MAX_LENGTH as i128) * (self.life as i128) / (self.max_life as i128);
        assert((MAX_LENGTH * self.life) as int / (self.max_life as int) <= MAX_LENGTH) by (nonlinear_arith)
            requires
                0 < self.life <= self.max_life,
        ;
        if l < MIN_LENGTH as i128 {
            MIN_LENGTH
        } else if l > MAX_LENGTH as i128 {
            MAX_LENGTH
        } else {
            l as i64
        }
    }

    /// Colour of the bar.
    pub fn color(&self) -> (r: Tint)
        requires
            self.wf(),
        ensures
            r == bar_tint(self.life as int, self.max_life as int),
    {
        if 5 * (self.life as i128) < self.max_life as i128 {
            Tint::Red
        } else if 2 * (self.life as i128) < self.max_life as i128 {
            Tint::Orange
        } else {
            Tint::Green
        }
    }
}

} // verus!
