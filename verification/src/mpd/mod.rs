//! What the client knows of MPD.

pub mod types;
pub mod client;
pub mod laws;
