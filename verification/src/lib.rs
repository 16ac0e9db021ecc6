//! A small entity-component system for a sprite game: keyboard input is
//! resolved to one movement command, which drives velocity, position,
//! animation and, at the end of each frame, a list of draw commands.
//!
//! The game is in `components`, `storage`, `input`, `keyboard`, `physics`,
//! `animator`, `renderer` and `world`; `input_laws` holds what is proved of
//! the input resolver for every run of key events. `simple_game` is the same
//! game for one player without stores, and `ball` a bouncing ball.
//!
//! The other modules are small examples of traits with a contract:
//! repositories that answer queries, a builder, a cache, settings, a
//! validator, batch processors, a masked message, widgets and log lines.

pub mod animator;
pub mod ball;
pub mod builder;
pub mod cache;
pub mod components;
pub mod config;
pub mod crypto;
pub mod events;
pub mod geometry;
pub mod input;
pub mod input_laws;
pub mod keyboard;
pub mod logging;
pub mod physics;
pub mod processing;
pub mod renderer;
pub mod repository;
pub mod serialization;
pub mod simple_game;
pub mod storage;
pub mod text;
pub mod validation;
pub mod widgets;
pub mod world;
