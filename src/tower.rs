use vstd::prelude::*;

use crate::geometry::Vec2;
use crate::lifebar::{Lifebar, BAR_OFFSET_X, BAR_OFFSET_Y};

verus! {

/// Horizontal position of the tower's centre, in milli-units.
pub const POSITION: i64 = 500_000;

pub const WIDTH: i64 = 15_000;

pub const HEIGHT: i64 = 35_000;

/// Thickness of the floor the tower stands on.
pub const FLOOR_HEIGHT: i64 = 20_000;

pub const INITIAL_LIFE: i64 = 10_000;

/// Height of the tower's centre: half its height above the floor's middle.
pub const CENTER_Y: i64 = 45_000;

pub const HALF_WIDTH: i64 = 7_500;

pub const HALF_HEIGHT: i64 = 17_500;

/// The player's tower, a damageable rectangle.
#[derive(Clone, Copy)]
pub struct Tower {
    life: i64,
    location: Vec2,
}

impl Tower {
    pub closed spec fn life_spec(&self) -> int {
        self.life as int
    }

    pub closed spec fn location_spec(&self) -> Vec2 {
        self.location
    }

    pub closed spec fn wf(&self) -> bool {
        &&& self.life <= INITIAL_LIFE
        &&& self.location == Vec2 { x: POSITION, y: CENTER_Y }
    }

    pub fn new() -> (r: Tower)
        ensures
            r.wf(),
            r.life_spec() == INITIAL_LIFE,
            r.location_spec() == (Vec2 { x: POSITION, y: CENTER_Y }),
    {
        Tower { life: INITIAL_LIFE, location: Vec2 { x: POSITION, y: CENTER_Y } }
    }

    pub fn life(&self) -> (r: i64)
        ensures
            r == self.life_spec(),
    {
        self.life
    }

    /// Centre of the tower.
    pub fn translation(&self) -> (r: Vec2)
        ensures
            r == self.location_spec(),
    {
        self.location
    }

    /// Full size of the tower.
    pub fn scale(&self) -> (r: Vec2)
        ensures
            r == (Vec2 { x: WIDTH, y: HEIGHT }),
    {
        Vec2 { x: WIDTH, y: HEIGHT }
    }

    /// Half size of the tower.
    pub fn shape(&self) -> (r: Vec2)
        ensures
            r == (Vec2 { x: HALF_WIDTH, y: HALF_HEIGHT }),
    {
        Vec2 { x: HALF_WIDTH, y: HALF_HEIGHT }
    }

    /// Loses `damage` hit points (life stops at the smallest `i64`).
    pub fn take_damage(&mut self, damage: u64)
        requires
            old(self).wf(),
        ensures
            final(self).wf(),
            final(self).location_spec() == old(self).location_spec(),
            final(self).life_spec() == if old(self).life_spec() - damage < i64::MIN {
                i64::MIN as int
            } else {
                old(self).life_spec() - damage
            },
            final(self).life_spec() <= old(self).life_spec(),
    {
        let l: i128 = self.life as i128 - damage as i128;
        if l < i64::MIN as i128 {
            self.life = i64::MIN;
        } else {
            self.life = l as i64;
        }
    }

    pub fn is_dead(&self) -> (r: bool)
        ensures
            r == (self.life_spec() <= 0),
    {
        self.life <= 0
    }

    /// The life bar above the tower, while it stands.
    pub fn get_lifebar(&self) -> (r: Option<Lifebar>)
        requires
            self.wf(),
        ensures
            self.life_spec() <= 0 ==> r.is_none(),
            self.life_spec() > 0 ==> {
                &&& r.is_some()
                &&& r.unwrap().wf()
                &&& r.unwrap().life == self.life_spec()
                &&& r.unwrap().max_life == INITIAL_LIFE
                &&& r.unwrap().origin.x == self.location_spec().x - HALF_WIDTH + BAR_OFFSET_X
                &&& r.unwrap().origin.y == self.location_spec().y + (HEIGHT + 4_000) / 2
                    + BAR_OFFSET_Y
            },
    {
        if self.life > 0 {
            let anchor = Vec2 {
                x: self.location.x - HALF_WIDTH,
                y: self.location.y + (HEIGHT + 4_000) / 2,
            };
            Some(Lifebar::new(anchor, self.life, INITIAL_LIFE))
        } else {
            None
        }
    }

    /// Top-left and bottom-right corners of the tower (y grows upward).
    pub open spec fn rect_spec(&self) -> (Vec2, Vec2) {
        (
            Vec2 {
                x: (self.location_spec().x - HALF_WIDTH) as i64,
                y: (self.location_spec().y + HALF_HEIGHT) as i64,
            },
            Vec2 {
                x: (self.location_spec().x + HALF_WIDTH) as i64,
                y: (self.location_spec().y - HALF_HEIGHT) as i64,
            },
        )
    }

    /// Top-left and bottom-right corners of the tower (y grows upward).
    pub fn as_rect(&self) -> (r: (Vec2, Vec2))
        requires
            self.wf(),
        ensures
            r == self.rect_spec(),
            r.0.in_world(),
            r.1.in_world(),
    {
        (
            Vec2 { x: self.location.x - HALF_WIDTH, y: self.location.y + HALF_HEIGHT },
            Vec2 { x: self.location.x + HALF_WIDTH, y: self.location.y - HALF_HEIGHT },
        )
    }
}

} // verus!
