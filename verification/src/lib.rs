//! Bookkeeping of the 60k-pill rendering benchmark scenes (Bevy, Fyrox and Pill
//! Engine): settings, the batched spawning schedule, material assignment and
//! the asset directory.
use vstd::prelude::*;

pub mod assets;
pub mod game;
pub mod settings;
pub mod spawning;

verus! {

/// Pills spawned by the Bevy scene.
pub const NUM_PILLS: usize = 60000;

/// Pills spawned by the Pill Engine scene.
pub const PILL_ENGINE_PILL_COUNT: usize = 60000;

/// Materials the Pill Engine scene spreads its pills over.
pub const PILL_ENGINE_MATERIAL_COUNT: usize = 10;

} // verus!
