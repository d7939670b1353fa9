//! Runtime core of a 2D game engine: a frame clock with a smoothed rate, per-frame
//! input state, a cache of decoded assets, named profiling series, and the engine
//! that drives game logic through scoped facades over them.

pub mod assets;
pub mod engine;
pub mod frame_clock;
pub mod input;
pub mod profile;
