//! Combat-resolution core of a tower-defense simulation: health and armor,
//! timed status effects, path-following enemies, homing projectiles, death
//! rewards and the state behind health bars and status indicators.
pub mod health;
pub mod status;
pub mod geometry;
pub mod timer;
pub mod healthbar;
pub mod enemy;
pub mod bullet;
pub mod world;
