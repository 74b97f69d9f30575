//! Core of a small 2-D game engine: configuration, textures and render
//! commands, a tile-map resource, an entity/component world, the sprite
//! systems that fill and draw it, and the screen/state-manager lifecycle
//! that drives a frame.
//!
//! Everything that needs a GPU, a window or a file lives outside this
//! crate; the types here model those resources by their plain data
//! (dimensions, handles, command logs), and the engine's decisions are
//! stated and checked over that model.

pub mod config;
pub mod graphics;
pub mod resource;
pub mod scene;
pub mod screen;
pub mod state;
pub mod systems;
pub mod texture;
pub mod tilemap;
pub mod window;
pub mod world;
