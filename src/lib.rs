//! Simulation core of a turn-based exploration game: timed actions of
//! actors, a clock that resolves them, and a lazily generated tile map.
//!
//! An actor commits to an action only when the action catalog finds it
//! legal; the action then carries the tick at which it is due. Each call of
//! `World::tick` resolves the actions that are due and moves the clock at
//! most one tick towards the player's pending action, so a driver that wants
//! an action done calls `tick` until the actor's slot is empty. Chunks of
//! the map are generated from the world's seed on first use and cached.
pub mod geometry;
pub mod text;
pub mod dice;
pub mod human;
pub mod item;
pub mod map;
pub mod action;
pub mod avatar;
pub mod brain;
pub mod world;
pub mod turn;
pub mod laws;
pub mod savefile;
pub mod log;
