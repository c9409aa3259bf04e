//! Verified core of a small 2D platformer character controller.
//!
//! The library models the character animation and locomotion state machine of
//! a sprite-sheet platformer over plain values: a closed set of character
//! states selected by edge-triggered input, a shared set of animation clips
//! built once at startup, a repeating animation clock, and a per-tick frame
//! advancer with wraparound.  Engine concerns (rendering, asset loading,
//! physics integration, input devices) stay outside; the surrounding program
//! hands this core plain values each tick and carries its outputs back to the
//! engine.

pub mod camera;
pub mod character;
pub mod clips;
pub mod clock;
pub mod state;
