//! The closed set of collision layers and their fixed interaction
//! masks: the contract the core hands the physics collaborator when it
//! requests a body. Two bodies may be overlap-tested only when each
//! one's mask admits the other's layer.

use vstd::prelude::*;

verus! {

/// The closed set of collision-layer tags.
#[derive(Debug, Copy, Clone, PartialEq, Eq, Structural)]
pub enum GameCollisionLayers {
    /// Bodies with no explicit tag; their mask admits everything.
    Default,
    World,
    Player,
    Loot,
    Projectile,
    Interactable,
}

/// Whether `layer`'s fixed interaction mask admits `other`.
pub open spec fn spec_mask_allows(
    layer: GameCollisionLayers,
    other: GameCollisionLayers,
) -> bool {
    match layer {
        GameCollisionLayers::Default => true,
        GameCollisionLayers::World => other matches (GameCollisionLayers::Default
            | GameCollisionLayers::Player
            | GameCollisionLayers::Loot
            | GameCollisionLayers::Projectile),
        GameCollisionLayers::Player => other matches (GameCollisionLayers::Default
            | GameCollisionLayers::World
            | GameCollisionLayers::Projectile
            | GameCollisionLayers::Interactable),
        GameCollisionLayers::Loot => other matches (GameCollisionLayers::Default
            | GameCollisionLayers::World),
        GameCollisionLayers::Projectile => other matches (GameCollisionLayers::Default
            | GameCollisionLayers::World
            | GameCollisionLayers::Player),
        GameCollisionLayers::Interactable => other matches GameCollisionLayers::Player,
    }
}

pub fn mask_allows(layer: GameCollisionLayers, other: GameCollisionLayers) -> (r: bool)
    ensures
        r == spec_mask_allows(layer, other),
{
    match layer {
        GameCollisionLayers::Default => true,
        GameCollisionLayers::World => matches!(
            other,
            GameCollisionLayers::Default | GameCollisionLayers::Player | GameCollisionLayers::Loot
                | GameCollisionLayers::Projectile
        ),
        GameCollisionLayers::Player => matches!(
            other,
            GameCollisionLayers::Default | GameCollisionLayers::World
                | GameCollisionLayers::Projectile | GameCollisionLayers::Interactable
        ),
        GameCollisionLayers::Loot => matches!(
            other,
            GameCollisionLayers::Default | GameCollisionLayers::World
        ),
        GameCollisionLayers::Projectile => matches!(
            other,
            GameCollisionLayers::Default | GameCollisionLayers::World
                | GameCollisionLayers::Player
        ),
        GameCollisionLayers::Interactable => matches!(other, GameCollisionLayers::Player),
    }
}

/// Two layers may be overlap-tested against each other.
pub open spec fn spec_can_collide(a: GameCollisionLayers, b: GameCollisionLayers) -> bool {
    spec_mask_allows(a, b) && spec_mask_allows(b, a)
}

pub fn can_collide(a: GameCollisionLayers, b: GameCollisionLayers) -> (r: bool)
    ensures
        r == spec_can_collide(a, b),
{
    mask_allows(a, b) && mask_allows(b, a)
}

/// Collision testing is symmetric, and a projectile meets world and
/// player bodies but never another projectile, loot, or an interactable
/// volume.
pub proof fn lemma_projectile_mask()
    ensures
        forall|a: GameCollisionLayers, b: GameCollisionLayers|
            spec_can_collide(a, b) == spec_can_collide(b, a),
        spec_can_collide(GameCollisionLayers::Projectile, GameCollisionLayers::World),
        spec_can_collide(GameCollisionLayers::Projectile, GameCollisionLayers::Player),
        !spec_can_collide(GameCollisionLayers::Projectile, GameCollisionLayers::Projectile),
        !spec_can_collide(GameCollisionLayers::Projectile, GameCollisionLayers::Loot),
        !spec_can_collide(GameCollisionLayers::Projectile, GameCollisionLayers::Interactable),
{
}

} // verus!
