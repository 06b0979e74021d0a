//! The pane that lists Spotify's playback devices.

use crate::mpd::types::clone_strings;
use vstd::prelude::*;

verus! {

/// The devices that the pane shows.
#[derive(Debug)]
pub struct SpotifyDevicesPane {
    pub devices: Vec<String>,
}

impl SpotifyDevicesPane {
    /// A pane that knows no device.
    pub fn new() -> (r: SpotifyDevicesPane)
        ensures
            r.devices@.len() == 0,
    {
        SpotifyDevicesPane { devices: Vec::new() }
    }

    /// The lines to show, one for each device.
    pub fn items(&self) -> (r: Vec<String>)
        ensures
            r@ == self.devices@,
    {
        clone_strings(&self.devices)
    }
}

} // verus!
