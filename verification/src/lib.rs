//! Live-tunable configuration constants.
//!
//! A program registers named scalar values (floating-point values, carried as
//! their bit patterns, and booleans) in a [`registry::Registry`]. Application
//! code reads them through lightweight handles; a local control plane can
//! overwrite them while the program runs. The first read of a key seeds the
//! stored value from the reader's default; a write to a key that was never
//! read is deliberately a no-op.

pub mod control;
pub mod laws;
pub mod registry;
pub mod render;
pub mod wire;
