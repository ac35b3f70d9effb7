//! A grid-based combat simulation that moves to the beat of the player.
//!
//! The player and the units act on ticks. The tempo of the ticks follows the player's
//! inputs ([`beat_controller`]); a sequencer plays scripted sections of music in step
//! with them ([`music_controller`]); and the world resolves targeting, the units'
//! decisions and the effects of their actions tick by tick ([`world`], [`logic`]).
//!
//! All numbers are integers: real quantities are counted in millionths ([`fixed`]), so
//! that every step of the simulation is the same on every machine and is stated exactly
//! in the contracts. Every function is total on the values that its `requires` admits,
//! and none panics.

pub mod action;
pub mod action_effect;
pub mod beat_controller;
pub mod collection;
pub mod component;
pub mod condition;
pub mod config;
pub mod context;
pub mod effect;
pub mod entity;
pub mod fixed;
pub mod grid;
pub mod health;
pub mod id;
pub mod item;
pub mod logic;
pub mod music_controller;
pub mod player;
pub mod projectile;
pub mod sound_queue;
pub mod target;
pub mod text;
pub mod unit;
pub mod util;
pub mod vec2;
pub mod world;
