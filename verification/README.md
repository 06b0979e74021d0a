# rmpc_core

The decision logic of a music-player client for the terminal, written and
verified with [Verus](https://github.com/verus-lang/verus). The client drives
two kinds of player: an MPD server and Spotify.

- `src/` is the library. It does no input and output. What has to happen outside
  comes back as a value, and what came of it goes in as one.
  - `command`, `run`: the commands of the command line, each a state machine
    that asks the player for things and decides what to do with the answers;
    `run_laws` states what holds of all of them.
  - `worker`: the threads that share one player, as state machines, and the
    proof that the player is always in exactly one place.
  - `mpd`: handshake, start of a session, and requests of several commands.
  - `spotify`: queue and playback, searches and playlists, logging in.
  - `external`: external commands and their environment.
  - `text`, `path`: text and path helpers.
- `tests/` runs the library on concrete values.
- `app/` is the ordinary Rust around it: sockets, threads, the terminal, the
  Spotify Web API and the playback library.

What is taken on trust is marked where it stands: `String::push`, the functions
of `rspotify` and `librespot` that read track names, build the authorize URL and
read the response code, and those of `serde_json` that read and write a token.
