//! Album-art acquisition, content-addressed caching and notification
//! rendering for a music-player status notifier, with the event-driven
//! refresh loop that ties them together.
//!
//! Everything here works on plain values: the connection to the player
//! server, the filesystem and the desktop notification service are driven by
//! the caller, which hands their answers to the functions of this crate.

pub mod buffer;
pub mod cache;
pub mod fetch;
pub mod imaging;
pub mod mpd;
pub mod notification;
pub mod refresh;
