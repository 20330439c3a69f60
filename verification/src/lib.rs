//! Combat and interaction core of a top-down action game: weapon cooldown
//! and ammo gating, projectile lifetime with owner exclusion, collision
//! resolution, and a capacity-constrained inventory with two weapon slots.
//!
//! The simulation advances in discrete ticks. Motion and overlap detection
//! belong to an injected physics collaborator: every tick entry point takes
//! the current overlap pairs and positions as plain values and returns the
//! state changes and one-shot events they cause.

pub mod data;
pub mod geom;
pub mod input;
pub mod interactables;
pub mod inventory;
pub mod layers;
pub mod player;
pub mod projectile;
pub mod rng;
pub mod session;
pub mod weapon;

