//! A player that plays from Spotify.

pub mod uri;
pub mod auth;
pub mod client;
pub mod catalog;
pub mod enqueue;
pub mod laws;
pub mod queue_laws;
pub mod playback_laws;
pub mod list_laws;
pub mod login_laws;
