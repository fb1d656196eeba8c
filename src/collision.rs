use vstd::prelude::*;

verus! {

/// Collision groups that bodies belong to.
#[derive(Clone, Copy, Debug, PartialEq, Eq, Structural)]
pub enum Layer {
    World,
    Player,
    Enemies,
    Bumpers,
    Projectiles,
    /// Anything that makes projectiles explode on contact.
    Trigger,
    Explosions,
}

impl Layer {
    /// Drawing depth of the bodies of this group: larger is nearer.
    pub fn to_z(&self) -> (r: i64)
        ensures
            0 <= r <= 5,
            *self == Layer::Explosions ==> r == 5,
            *self == Layer::Projectiles ==> r == 4,
            *self == Layer::Bumpers ==> r == 3,
            *self == Layer::Enemies ==> r == 2,
            *self == Layer::Player ==> r == 1,
            *self == Layer::World || *self == Layer::Trigger ==> r == 0,
    {
        match self {
            Layer::World => 0,
            Layer::Player => 1,
            Layer::Enemies => 2,
            Layer::Bumpers => 3,
            Layer::Projectiles => 4,
            Layer::Trigger => 0,
            Layer::Explosions => 5,
        }
    }
}

/// Layers of drawn things that take no part in physics.
#[derive(Clone, Copy, Debug, PartialEq, Eq, Structural)]
pub enum GhostLayers {
    LifeBars,
}

impl GhostLayers {
    /// Drawing depth, above every physics layer.
    pub fn to_z(&self) -> (r: i64)
        ensures
            r == 50,
    {
        match self {
            GhostLayers::LifeBars => 50,
        }
    }
}

/// The kinds of body that take part in collisions.
#[derive(Clone, Copy, Debug, PartialEq, Eq, Structural)]
pub enum BodyKind {
    Enemy,
    Projectile,
    Tower,
    Bumper,
    Floor,
    Trigger,
}

impl BodyKind {
    /// The groups a body of this kind belongs to.
    pub open spec fn in_group_spec(self, layer: Layer) -> bool {
        match self {
            BodyKind::Enemy => layer == Layer::Enemies || layer == Layer::Trigger,
            BodyKind::Projectile => layer == Layer::Projectiles,
            BodyKind::Tower => layer == Layer::Player || layer == Layer::Trigger,
            BodyKind::Bumper => layer == Layer::Bumpers,
            BodyKind::Floor => layer == Layer::World,
            BodyKind::Trigger => layer == Layer::Trigger,
        }
    }

    pub fn in_group(&self, layer: Layer) -> (r: bool)
        ensures
            r == self.in_group_spec(layer),
    {
        match self {
            BodyKind::Enemy => layer == Layer::Enemies || layer == Layer::Trigger,
            BodyKind::Projectile => layer == Layer::Projectiles,
            BodyKind::Tower => layer == Layer::Player || layer == Layer::Trigger,
            BodyKind::Bumper => layer == Layer::Bumpers,
            BodyKind::Floor => layer == Layer::World,
            BodyKind::Trigger => layer == Layer::Trigger,
        }
    }
}

/// One of the two bodies in a collision, by kind and by identity.
#[derive(Clone, Copy, Debug, PartialEq, Eq, Structural)]
pub struct Body {
    pub kind: BodyKind,
    pub id: u64,
}

/// A contact reported by the physics engine.
#[derive(Clone, Copy, Debug, PartialEq, Eq, Structural)]
pub struct CollisionEvent {
    pub first: Body,
    pub second: Body,
    /// The contact starts (rather than ends).
    pub started: bool,
}

/// What a contact means to the game.
#[derive(Clone, Copy, Debug, PartialEq, Eq, Structural)]
pub enum Interaction {
    /// The projectile with this id hit a trigger and explodes at once.
    ProjectileExploded(u64),
    /// The projectile with this id touched the ground.
    ProjectileLanded(u64),
    /// The bumper with this id deflected a projectile.
    BumperActivated(u64),
    /// Nothing the game reacts to.
    Ignored,
}

/// The body of the pair, if any, that is a projectile meeting a body of
/// group `layer`; `pick_other` chooses the other body of the pair instead.
pub open spec fn projectile_meets(e: CollisionEvent, layer: Layer, pick_other: bool) -> Option<u64> {
    if e.first.kind.in_group_spec(Layer::Projectiles) && e.second.kind.in_group_spec(layer) {
        Some(if pick_other { e.second.id } else { e.first.id })
    } else if e.second.kind.in_group_spec(Layer::Projectiles) && e.first.kind.in_group_spec(layer) {
        Some(if pick_other { e.first.id } else { e.second.id })
    } else {
        None
    }
}

/// Classification of a contact, tried in this order: a projectile hitting a
/// trigger, a projectile touching the ground, a projectile hitting a bumper.
/// Contacts that end are ignored.
pub open spec fn classify_spec(e: CollisionEvent) -> Interaction {
    if !e.started {
        Interaction::Ignored
    } else if projectile_meets(e, Layer::Trigger, false).is_some() {
        Interaction::ProjectileExploded(projectile_meets(e, Layer::Trigger, false).unwrap())
    } else if projectile_meets(e, Layer::World, false).is_some() {
        Interaction::ProjectileLanded(projectile_meets(e, Layer::World, false).unwrap())
    } else if projectile_meets(e, Layer::Bumpers, true).is_some() {
        Interaction::BumperActivated(projectile_meets(e, Layer::Bumpers, true).unwrap())
    } else {
        Interaction::Ignored
    }
}

fn meets(e: &CollisionEvent, layer: Layer, pick_other: bool) -> (r: Option<u64>)
    ensures
        r == projectile_meets(*e, layer, pick_other),
{
    if e.first.kind.in_group(Layer::Projectiles) && e.second.kind.in_group(layer) {
        Some(
            if pick_other {
                e.second.id
            } else {
                e.first.id
            },
        )
    } else if e.second.kind.in_group(Layer::Projectiles) && e.first.kind.in_group(layer) {
        Some(
            if pick_other {
                e.first.id
            } else {
                e.second.id
            },
        )
    } else {
        None
    }
}

/// What a contact means to the game, see `classify_spec`.
pub fn classify(e: &CollisionEvent) -> (r: Interaction)
    ensures
        r == classify_spec(*e),
{
    if !e.started {
        return Interaction::Ignored;
    }
    if let Some(id) = meets(e, Layer::Trigger, false) {
        return Interaction::ProjectileExploded(id);
    }
    if let Some(id) = meets(e, Layer::World, false) {
        return Interaction::ProjectileLanded(id);
    }
    if let Some(id) = meets(e, Layer::Bumpers, true) {
        return Interaction::BumperActivated(id);
    }
    Interaction::Ignored
}

} // verus!
