//! The engine's systems and the resources they share.

use vstd::prelude::*;

pub mod sprite;

verus! {

/// The time the last frame took, in nanoseconds. Kept as a world
/// resource so every system reads the same value during a dispatch.
#[derive(Clone, Copy)]
pub struct DeltaTime(pub u64);

} // verus!
