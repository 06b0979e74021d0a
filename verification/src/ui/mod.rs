//! Parts of the user interface.

pub mod spotify_devices;
