//! The core of a tile-based game: map documents and the tiles that they place,
//! collisions between actors and solids, and the phases of loading and
//! playing levels.
pub mod atlas;
pub mod decode;
pub mod error;
pub mod gid;
pub mod json;
pub mod level;
pub mod loader;
pub mod phase;
pub mod physics;
pub mod player;
pub mod registry;
pub mod table;
pub mod tiled;

pub use phase::GameState;
