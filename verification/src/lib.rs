//! Core of a settlement-economy simulation: per-city resource ledgers,
//! buildings with leveled effects, derived city statistics, class-stratified
//! population dynamics, per-settlement markets with time-delayed trade routes,
//! a static technology graph, and world-map bookkeeping.
//!
//! The simulation core is synchronous and free of I/O; the terminal
//! presentation layer, network transport, and persistence live outside this
//! crate and talk to it through plain values.

pub mod account;
pub mod building;
pub mod city;
pub mod clock;
pub mod error;
pub mod i18n;
pub mod ids;
pub mod item;
pub mod map;
pub mod market;
pub mod plugin;
pub mod population;
pub mod resources;
pub mod rng;
pub mod technology;
pub mod text;
pub mod world;
