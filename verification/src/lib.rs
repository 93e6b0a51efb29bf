//! Free-roam gameplay core of a tile-based, top-down role-playing game.
//!
//! The crate tracks the player over a scrolling world, pages the camera after
//! the player, detects collisions with trigger tiles and turns a collision
//! with a monster tile into an encounter with scaled enemy statistics.
//!
//! All positions are whole world units (`i64`); elapsed time is given in
//! milliseconds.
pub mod geometry;
pub mod collision;
pub mod input;
pub mod stats;
pub mod camera;
pub mod world;
pub mod movement;
pub mod laws;
pub mod animation;


