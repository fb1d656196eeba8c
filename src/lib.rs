//! Combat core of a small arcade defense game: enemies walk in from the
//! sides and lob bouncing projectiles at a tower, a player-placed bumper
//! deflects them, and explosions deal area damage.
//!
//! Lengths are integer milli-units of the visible world, speeds are
//! milli-units per second, durations are microseconds, and life and damage
//! are whole hit points.

pub mod ballistics;
pub mod bumper;
pub mod codec;
pub mod collision;
pub mod enemy;
pub mod explosion;
pub mod flasher;
pub mod geometry;
pub mod lifebar;
pub mod pipeline;
pub mod projectile;
pub mod random;
pub mod spawner;
pub mod timer;
pub mod tower;

pub use ballistics::{flight_time_span, launch_velocity, GRAVITY};
pub use bumper::{Bumper, BumperStats, BumperType, Placement};
pub use codec::RECORD_LEN;
pub use collision::{classify, Body, BodyKind, CollisionEvent, GhostLayers, Interaction, Layer};
pub use enemy::{Enemy, EnemyDirection, EnemyStats, EnemyType, ShootResult};
pub use explosion::{ActiveExplosions, Explosion, ExplosionStats, ExplosionType};
pub use flasher::{Flasher, FlasherStats, FlasherType, Tint};
pub use geometry::{isqrt, Vec2};
pub use lifebar::Lifebar;
pub use pipeline::{
    BumperAction, BumperSlot, Done, EnemySlot, EnemySpawn, ProjectileSlot, Session, Shot,
};
pub use projectile::{LandEffect, Projectile, ProjectileStats, ProjectileType};
pub use random::{draw_in, pick_weighted, sample_weighted};
pub use spawner::Spawner;
pub use timer::{Timer, MAX_STEP};
pub use tower::Tower;
