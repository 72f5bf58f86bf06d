//! Verified core of the Magnet Spotify desktop client: the player reducer,
//! Spotify catalog validation and pagination, OAuth session decisions,
//! the demo library, and the analysis configuration checks.

pub mod clock;
pub mod text;
pub mod model;
pub mod player;
pub mod library;
pub mod lifecycle;
pub mod catalog;
pub mod spotify_url;
pub mod session;
pub mod audio;
