//! The decision logic of a music-player client that drives two kinds of
//! player: an MPD server and Spotify.
//!
//! Nothing in this crate talks to a socket, a file, a terminal or a thread.
//! Every function takes plain values, and what has to happen outside comes
//! back as a value: the next action of a state machine, a list of playback
//! commands, a line of text.

pub mod text;
pub mod text_laws;
pub mod path;
pub mod path_laws;
pub mod mpd;
pub mod player;
pub mod command;
pub mod command_laws;
pub mod run;
pub mod run_laws;
pub mod add_laws;
pub mod external;
pub mod external_laws;
pub mod worker;
pub mod spotify;
pub mod ui;
