//! Deterministic playback of timed input scripts against a tick-driven simulation.

pub mod tas;
pub mod text;
pub mod decimal;
pub mod witness_types;
pub mod windows_types;
pub mod script;
pub mod grammar;
pub mod canonical;
pub mod roundtrip;
pub mod controller;
pub mod trace;
pub mod communication;
pub mod tas_player;
pub mod hooks;
pub mod interface;
