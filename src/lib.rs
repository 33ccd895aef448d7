//! Core of a floating notch capsule overlay: hover-zone geometry, the
//! debounced hover signal, the animation bridge's decisions and the
//! configuration snapshot, all verified.
//!
//! Fractional quantities are held in fixed point: lengths and positions in
//! milli-points (1/1000 of a screen point), times in milliseconds, curve
//! control points and scrub progress in thousandths.
use vstd::prelude::*;

pub mod geometry;
pub mod config;
pub mod hover;
pub mod debounce;
pub mod attach;
pub mod bridge;
pub mod window;
pub mod media;
