//! Hyperion: the tick-driven simulation core of a game server.
//!
//! Every quantity that the simulation computes with is an integer: ticks,
//! nanoseconds, and fixed-point health and coordinates. The embedding server
//! owns sockets, the wire codec and the entity store, and hands this crate
//! plain values.

pub mod aabb;
pub mod bvh;
pub mod components;
pub mod game;
pub mod global;
pub mod limits;
pub mod pipeline;
pub mod singleton;
pub mod system;
