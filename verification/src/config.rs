//! Game configuration.
//!
//! The settings are read from a configuration file by the embedding
//! program and handed over as plain values.

use vstd::prelude::*;

verus! {

/// General game settings, should not be edited by the player.
pub struct GameConfig {
    pub graphics: GraphicsSettings,
}

/// Graphics settings.
pub struct GraphicsSettings {
    pub window_width: u32,
    pub window_height: u32,
    pub vsync: bool,
    pub multisampling: u16,
    pub title: String,
}

} // verus!
