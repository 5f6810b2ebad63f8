//! Verified core of a square-eating arcade simulation.
//!
//! A player-controlled rectangle grows by consuming smaller wandering
//! squares while larger "predator" squares chase it; a transient power-up
//! inverts the chase and lets the player consume predators.  This crate
//! holds the per-frame simulation pipeline: status-effect counters, motion,
//! growth, spawning, collision resolution, cleanup with win/lose detection,
//! and render-intent emission.  All geometry is carried in fixed-point
//! integer coordinates (see [`config`]); the host loop supplies pointer
//! input and draws the emitted intents.

pub mod cleanup;
pub mod collision;
pub mod config;
pub mod counters;
pub mod growth;
pub mod laws;
pub mod model;
pub mod motion;
pub mod num;
pub mod pipeline;
pub mod render;
pub mod rng;
pub mod spawn;
