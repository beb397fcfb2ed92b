//! Movement-and-collision core of a 2D platformer character controller.
//!
//! The library converts discrete player intents (move, jump, dash, climb) and
//! a constant gravitational acceleration into a single resolved per-frame
//! displacement of a player against a set of static axis-aligned obstacles,
//! while tracking the short-lived locomotion states (airborne/on-ground,
//! jumping, dashing, climbing) that gate which intents are honored.
//!
//! All lengths are whole milli-units (one thousandth of a world unit) and all
//! times are whole milliseconds, so every quantity in the core is an exact
//! integer and every step of the pipeline has a precise mathematical meaning.
//!
//! The host program supplies the raw input sample, the frame delta time and
//! the obstacle list, and consumes the returned effect flags (sound requests,
//! ceiling bump) and the debug snapshot; see [`frame::advance_frame`].

pub mod collision;
pub mod constants;
pub mod frame;
pub mod geometry;
pub mod intent;
pub mod player;
pub mod timer;
