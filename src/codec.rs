use vstd::bytes::{
    lemma_auto_spec_u64_to_from_le_bytes, spec_u64_from_le_bytes, spec_u64_to_le_bytes,
    u64_from_le_bytes, u64_to_le_bytes,
};
use vstd::prelude::*;
use vstd::slice::slice_subrange;

use crate::enemy::{EnemyStats, EnemyType};
use crate::explosion::ExplosionType;
use crate::flasher::Tint;
use crate::projectile::{ProjectileStats, ProjectileType};

verus! {

/// Length in bytes of an encoded stats record: three little-endian 64-bit
/// words and two one-byte fields.
pub const RECORD_LEN: usize = 26;

/// Two's complement word of a signed number.
pub open spec fn word_of(x: i64) -> u64 {
    if x >= 0 {
        x as u64
    } else {
        (x + 0x1_0000_0000_0000_0000) as u64
    }
}

/// Signed number of a two's complement word.
pub open spec fn signed_of(w: u64) -> i64 {
    if w < 0x8000_0000_0000_0000 {
        w as i64
    } else {
        (w - 0x1_0000_0000_0000_0000) as i64
    }
}

fn to_word(x: i64) -> (r: u64)
    ensures
        r == word_of(x),
{
    if x >= 0 {
        x as u64
    } else {
        (x as i128 + 0x1_0000_0000_0000_0000i128) as u64
    }
}

fn to_signed(w: u64) -> (r: i64)
    ensures
        r == signed_of(w),
{
    if w < 0x8000_0000_0000_0000 {
        w as i64
    } else {
        (w as i128 - 0x1_0000_0000_0000_0000i128) as i64
    }
}

impl ExplosionType {
    pub open spec fn index_spec(self) -> u8 {
        match self {
            ExplosionType::WeakShot => 0,
            ExplosionType::BigShot => 1,
            ExplosionType::HugeShot => 2,
            ExplosionType::HotShot => 3,
            ExplosionType::MiniShot => 4,
        }
    }

    pub open spec fn from_index_spec(i: u8) -> Option<ExplosionType> {
        if i == 0 {
            Some(ExplosionType::WeakShot)
        } else if i == 1 {
            Some(ExplosionType::BigShot)
        } else if i == 2 {
            Some(ExplosionType::HugeShot)
        } else if i == 3 {
            Some(ExplosionType::HotShot)
        } else if i == 4 {
            Some(ExplosionType::MiniShot)
        } else {
            None
        }
    }

    pub fn index(&self) -> (r: u8)
        ensures
            r == self.index_spec(),
    {
        match self {
            ExplosionType::WeakShot => 0,
            ExplosionType::BigShot => 1,
            ExplosionType::HugeShot => 2,
            ExplosionType::HotShot => 3,
            ExplosionType::MiniShot => 4,
        }
    }

    pub fn from_index(i: u8) -> (r: Option<ExplosionType>)
        ensures
            r == ExplosionType::from_index_spec(i),
    {
        if i == 0 {
            Some(ExplosionType::WeakShot)
        } else if i == 1 {
            Some(ExplosionType::BigShot)
        } else if i == 2 {
            Some(ExplosionType::HugeShot)
        } else if i == 3 {
            Some(ExplosionType::HotShot)
        } else if i == 4 {
            Some(ExplosionType::MiniShot)
        } else {
            None
        }
    }
}

impl ProjectileType {
    pub open spec fn index_spec(self) -> u8 {
        match self {
            ProjectileType::WeakShot => 0,
            ProjectileType::BigShot => 1,
            ProjectileType::HugeShot => 2,
            ProjectileType::HotShot => 3,
            ProjectileType::MiniShot => 4,
        }
    }

    pub open spec fn from_index_spec(i: u8) -> Option<ProjectileType> {
        if i == 0 {
            Some(ProjectileType::WeakShot)
        } else if i == 1 {
            Some(ProjectileType::BigShot)
        } else if i == 2 {
            Some(ProjectileType::HugeShot)
        } else if i == 3 {
            Some(ProjectileType::HotShot)
        } else if i == 4 {
            Some(ProjectileType::MiniShot)
        } else {
            None
        }
    }

    pub fn index(&self) -> (r: u8)
        ensures
            r == self.index_spec(),
    {
        match self {
            ProjectileType::WeakShot => 0,
            ProjectileType::BigShot => 1,
            ProjectileType::HugeShot => 2,
            ProjectileType::HotShot => 3,
            ProjectileType::MiniShot => 4,
        }
    }

    pub fn from_index(i: u8) -> (r: Option<ProjectileType>)
        ensures
            r == ProjectileType::from_index_spec(i),
    {
        if i == 0 {
            Some(ProjectileType::WeakShot)
        } else if i == 1 {
            Some(ProjectileType::BigShot)
        } else if i == 2 {
            Some(ProjectileType::HugeShot)
        } else if i == 3 {
            Some(ProjectileType::HotShot)
        } else if i == 4 {
            Some(ProjectileType::MiniShot)
        } else {
            None
        }
    }
}

impl Tint {
    pub open spec fn index_spec(self) -> u8 {
        match self {
            Tint::Cyan => 0,
            Tint::Green => 1,
            Tint::Orange => 2,
            Tint::Red => 3,
            Tint::Purple => 4,
            Tint::Yellow => 5,
            Tint::White => 6,
            Tint::Blue => 7,
            Tint::Pink => 8,
            Tint::Gray => 9,
            Tint::Maroon => 10,
        }
    }

    pub open spec fn from_index_spec(i: u8) -> Option<Tint> {
        if i == 0 {
            Some(Tint::Cyan)
        } else if i == 1 {
            Some(Tint::Green)
        } else if i == 2 {
            Some(Tint::Orange)
        } else if i == 3 {
            Some(Tint::Red)
        } else if i == 4 {
            Some(Tint::Purple)
        } else if i == 5 {
            Some(Tint::Yellow)
        } else if i == 6 {
            Some(Tint::White)
        } else if i == 7 {
            Some(Tint::Blue)
        } else if i == 8 {
            Some(Tint::Pink)
        } else if i == 9 {
            Some(Tint::Gray)
        } else if i == 10 {
            Some(Tint::Maroon)
        } else {
            None
        }
    }

    pub fn index(&self) -> (r: u8)
        ensures
            r == self.index_spec(),
    {
        match self {
            Tint::Cyan => 0,
            Tint::Green => 1,
            Tint::Orange => 2,
            Tint::Red => 3,
            Tint::Purple => 4,
            Tint::Yellow => 5,
            Tint::White => 6,
            Tint::Blue => 7,
            Tint::Pink => 8,
            Tint::Gray => 9,
            Tint::Maroon => 10,
        }
    }

    pub fn from_index(i: u8) -> (r: Option<Tint>)
        ensures
            r == Tint::from_index_spec(i),
    {
        if i == 0 {
            Some(Tint::Cyan)
        } else if i == 1 {
            Some(Tint::Green)
        } else if i == 2 {
            Some(Tint::Orange)
        } else if i == 3 {
            Some(Tint::Red)
        } else if i == 4 {
            Some(Tint::Purple)
        } else if i == 5 {
            Some(Tint::Yellow)
        } else if i == 6 {
            Some(Tint::White)
        } else if i == 7 {
            Some(Tint::Blue)
        } else if i == 8 {
            Some(Tint::Pink)
        } else if i == 9 {
            Some(Tint::Gray)
        } else if i == 10 {
            Some(Tint::Maroon)
        } else {
            None
        }
    }
}

/// Three words followed by two bytes.
pub open spec fn record(w0: u64, w1: u64, w2: u64, b0: u8, b1: u8) -> Seq<u8> {
    spec_u64_to_le_bytes(w0) + spec_u64_to_le_bytes(w1) + spec_u64_to_le_bytes(w2) + seq![b0, b1]
}

/// The three words and two bytes of a record.
pub open spec fn fields(b: Seq<u8>) -> (u64, u64, u64, u8, u8) {
    (
        spec_u64_from_le_bytes(b.subrange(0, 8)),
        spec_u64_from_le_bytes(b.subrange(8, 16)),
        spec_u64_from_le_bytes(b.subrange(16, 24)),
        b[24],
        b[25],
    )
}

proof fn lemma_fields_of_record(w0: u64, w1: u64, w2: u64, b0: u8, b1: u8)
    ensures
        record(w0, w1, w2, b0, b1).len() == RECORD_LEN,
        fields(record(w0, w1, w2, b0, b1)) == (w0, w1, w2, b0, b1),
{
    lemma_auto_spec_u64_to_from_le_bytes();
    let r = record(w0, w1, w2, b0, b1);
    assert(r.subrange(0, 8) =~= spec_u64_to_le_bytes(w0));
    assert(r.subrange(8, 16) =~= spec_u64_to_le_bytes(w1));
    assert(r.subrange(16, 24) =~= spec_u64_to_le_bytes(w2));
}

fn write_record(w0: u64, w1: u64, w2: u64, b0: u8, b1: u8) -> (r: Vec<u8>)
    ensures
        r@ == record(w0, w1, w2, b0, b1),
{
    let mut out = u64_to_le_bytes(w0);
    let mut second = u64_to_le_bytes(w1);
    let mut third = u64_to_le_bytes(w2);
    out.append(&mut second);
    out.append(&mut third);
    out.push(b0);
    out.push(b1);
    assert(out@ =~= record(w0, w1, w2, b0, b1));
    out
}

fn read_record(b: &[u8]) -> (r: (u64, u64, u64, u8, u8))
    requires
        b@.len() == RECORD_LEN,
    ensures
        r == fields(b@),
{
    let w0 = u64_from_le_bytes(slice_subrange(b, 0, 8));
    let w1 = u64_from_le_bytes(slice_subrange(b, 8, 16));
    let w2 = u64_from_le_bytes(slice_subrange(b, 16, 24));
    (w0, w1, w2, b[24], b[25])
}

impl ProjectileStats {
    /// The bytes of a projectile stats record: radius, bounces and
    /// explosions as words, then the shape flag and the explosion kind.
    pub open spec fn encode_spec(self) -> Seq<u8> {
        record(
            word_of(self.radius),
            self.bounces as u64,
            self.explosions as u64,
            if self.square {
                1
            } else {
                0
            },
            self.explosion.index_spec(),
        )
    }

    /// The record that `b` holds, if it is one.
    pub open spec fn decode_spec(b: Seq<u8>) -> Option<ProjectileStats> {
        if b.len() != RECORD_LEN {
            None
        } else {
            let (w0, w1, w2, b0, b1) = fields(b);
            if w1 > usize::MAX || w2 > usize::MAX || b0 > 1 || ExplosionType::from_index_spec(
                b1,
            ).is_none() {
                None
            } else {
                Some(
                    ProjectileStats {
                        radius: signed_of(w0),
                        bounces: w1 as usize,
                        explosions: w2 as usize,
                        square: b0 == 1,
                        explosion: ExplosionType::from_index_spec(b1).unwrap(),
                    },
                )
            }
        }
    }

    pub fn to_bytes(&self) -> (r: Vec<u8>)
        ensures
            r@ == self.encode_spec(),
    {
        let radius = to_word(self.radius);
        let square: u8 = if self.square {
            1
        } else {
            0
        };
        let kind = self.explosion.index();
        write_record(radius, self.bounces as u64, self.explosions as u64, square, kind)
    }

    pub fn from_bytes(b: &[u8]) -> (r: Option<ProjectileStats>)
        ensures
            r == ProjectileStats::decode_spec(b@),
    {
        if b.len() != RECORD_LEN {
            return None;
        }
        let (w0, w1, w2, b0, b1) = read_record(b);
        if w1 > usize::MAX as u64 || w2 > usize::MAX as u64 || b0 > 1 {
            return None;
        }
        match ExplosionType::from_index(b1) {
            None => None,
            Some(explosion) => Some(
                ProjectileStats {
                    radius: to_signed(w0),
                    bounces: w1 as usize,
                    explosions: w2 as usize,
                    square: b0 == 1,
                    explosion,
                },
            ),
        }
    }
}

impl EnemyStats {
    /// The bytes of an enemy stats record: life, bullets and delay between
    /// shots as words, then the projectile kind and the colour.
    pub open spec fn encode_spec(self) -> Seq<u8> {
        record(
            word_of(self.life),
            self.bullets as u64,
            self.shoot_delay,
            self.projectile.index_spec(),
            self.tint.index_spec(),
        )
    }

    /// The record that `b` holds, if it is one.
    pub open spec fn decode_spec(b: Seq<u8>) -> Option<EnemyStats> {
        if b.len() != RECORD_LEN {
            None
        } else {
            let (w0, w1, w2, b0, b1) = fields(b);
            if w1 > usize::MAX || ProjectileType::from_index_spec(b0).is_none()
                || Tint::from_index_spec(b1).is_none() {
                None
            } else {
                Some(
                    EnemyStats {
                        life: signed_of(w0),
                        bullets: w1 as usize,
                        shoot_delay: w2,
                        projectile: ProjectileType::from_index_spec(b0).unwrap(),
                        tint: Tint::from_index_spec(b1).unwrap(),
                    },
                )
            }
        }
    }

    pub fn to_bytes(&self) -> (r: Vec<u8>)
        ensures
            r@ == self.encode_spec(),
    {
        let life = to_word(self.life);
        let kind = self.projectile.index();
        let tint = self.tint.index();
        write_record(life, self.bullets as u64, self.shoot_delay, kind, tint)
    }

    pub fn from_bytes(b: &[u8]) -> (r: Option<EnemyStats>)
        ensures
            r == EnemyStats::decode_spec(b@),
    {
        if b.len() != RECORD_LEN {
            return None;
        }
        let (w0, w1, w2, b0, b1) = read_record(b);
        if w1 > usize::MAX as u64 {
            return None;
        }
        match (ProjectileType::from_index(b0), Tint::from_index(b1)) {
            (Some(projectile), Some(tint)) => Some(
                EnemyStats { life: to_signed(w0), bullets: w1 as usize, shoot_delay: w2, projectile, tint },
            ),
            _ => None,
        }
    }
}

/// Decoding the bytes of any projectile stats record gives the record back.
pub proof fn lemma_projectile_stats_round_trip(s: ProjectileStats)
    ensures
        ProjectileStats::decode_spec(s.encode_spec()) == Some(s),
{
    let sq: u8 = if s.square {
        1
    } else {
        0
    };
    lemma_fields_of_record(
        word_of(s.radius),
        s.bounces as u64,
        s.explosions as u64,
        sq,
        s.explosion.index_spec(),
    );
}

/// Decoding the bytes of any enemy stats record gives the record back.
pub proof fn lemma_enemy_stats_round_trip(s: EnemyStats)
    ensures
        EnemyStats::decode_spec(s.encode_spec()) == Some(s),
{
    lemma_fields_of_record(
        word_of(s.life),
        s.bullets as u64,
        s.shoot_delay,
        s.projectile.index_spec(),
        s.tint.index_spec(),
    );
}

/// For every kind of projectile and of enemy, the stats table survives
/// being written out and read back: same radius, bounces and explosions,
/// same life and bullets, and the rest.
pub proof fn lemma_stats_tables_round_trip(p: ProjectileType, e: EnemyType)
    ensures
        ProjectileStats::decode_spec(p.stats_spec().encode_spec()) == Some(p.stats_spec()),
        EnemyStats::decode_spec(e.stats_spec().encode_spec()) == Some(e.stats_spec()),
{
    lemma_projectile_stats_round_trip(p.stats_spec());
    lemma_enemy_stats_round_trip(e.stats_spec());
}

} // verus!
