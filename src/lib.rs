//! Core logic of a 2D arcade game in which a player-steered "death ball"
//! gathers animals that then ram into buildings and enemies.
//!
//! The library holds the generational entity store, the identity scheme that
//! ties physics colliders to entities, the canonical ordering of collision
//! events, the entity state machines and the per-frame event dispatcher.

pub mod animals;
pub mod buildings;
pub mod combat;
pub mod enemies;
pub mod entities;
pub mod groups;
pub mod health;
pub mod levels;
pub mod objectives;
pub mod physics;
