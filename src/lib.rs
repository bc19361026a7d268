// Frame pipelines: per-frame state, recycled buffer pools, processor
// chains with short-circuit and fault diversion, and the types of the
// capture, streaming and playback programs built on them.
//
// Everything here is verified; the concurrent stage loop that drives a
// pipeline lives in the application around the library.

pub mod basics;
pub mod chain;
pub mod component;
pub mod frame;
pub mod laws;
pub mod mirror;
pub mod pipeline;
pub mod player;
pub mod pool;
pub mod registry;
pub mod slots;
pub mod snapper;
pub mod stats;
pub mod stream;
pub mod ticker;
