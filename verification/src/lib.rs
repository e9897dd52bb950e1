//! Verified core of a terminal audio visualizer: view modes, colour themes,
//! the auto-mode and beat-gating state machine, and column bucketing.
use vstd::prelude::*;

pub mod render;
pub mod signal;
pub mod theme;
pub mod app;
pub mod hud;

verus! {

} // verus!
