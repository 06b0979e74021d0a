//! The state of the Spotify player: its queue, what it plays, and the commands
//! that it has for the playback library.

use crate::mpd::types;
use crate::mpd::types::{
    clone_songs, SingleOrRange, Song, SongView, State, Status, Update, ValueChange,
    Version,
};
use crate::player::PlayerBreakHandle;
use crate::spotify::catalog;
use crate::spotify::catalog::{song_from_track, Track};
use crate::spotify::uri;
use vstd::prelude::*;

verus! {

/// The loudest volume.
pub const MAX_VOLUME: u32 = 100;

/// Why the player did not do what it was asked to.
#[derive(Clone, Copy, Debug, PartialEq, Eq, Structural)]
pub enum SpotifyError {
    NotLoggedIn,
    InvalidUri,
    SongNotFound,
    SongNotFoundAtPosition,
    PlaylistNotFound,
    NoDownloads,
}

impl SpotifyError {
    /// The text of the error.
    pub open spec fn text(self) -> Seq<char> {
        match self {
            SpotifyError::NotLoggedIn => "Spotify not logged in. Run 'rmpc spotifylogin' first."@,
            SpotifyError::InvalidUri => "Invalid Spotify URI"@,
            SpotifyError::SongNotFound => "Song not found"@,
            SpotifyError::SongNotFoundAtPosition => "Song not found at position"@,
            SpotifyError::PlaylistNotFound => "Playlist not found"@,
            SpotifyError::NoDownloads => {
                "Spotify backend does not support adding downloaded files"@
            },
        }
    }

    /// The text of the error.
    pub fn message(&self) -> (r: String)
        ensures
            r@ == self.text(),
    {
        match self {
            SpotifyError::NotLoggedIn => String::from_str(
                "Spotify not logged in. Run 'rmpc spotifylogin' first.",
            ),
            SpotifyError::InvalidUri => String::from_str("Invalid Spotify URI"),
            SpotifyError::SongNotFound => String::from_str("Song not found"),
            SpotifyError::SongNotFoundAtPosition => String::from_str("Song not found at position"),
            SpotifyError::PlaylistNotFound => String::from_str("Playlist not found"),
            SpotifyError::NoDownloads => String::from_str(
                "Spotify backend does not support adding downloaded files",
            ),
        }
    }
}

/// A command for the playback library.
#[derive(Debug)]
pub enum PlaybackCommand {
    Play,
    Pause,
    Stop,
    Seek { position_ms: u32 },
    Load { uri: String, start_playing: bool, position_ms: u32 },
}

/// What a command says.
pub enum CommandView {
    Play,
    Pause,
    Stop,
    Seek { position_ms: u32 },
    Load { uri: Seq<char>, start_playing: bool, position_ms: u32 },
}

impl View for PlaybackCommand {
    type V = CommandView;

    open spec fn view(&self) -> CommandView {
        match self {
            PlaybackCommand::Play => CommandView::Play,
            PlaybackCommand::Pause => CommandView::Pause,
            PlaybackCommand::Stop => CommandView::Stop,
            PlaybackCommand::Seek { position_ms } => CommandView::Seek {
                position_ms: *position_ms,
            },
            PlaybackCommand::Load { uri, start_playing, position_ms } => CommandView::Load {
                uri: uri@,
                start_playing: *start_playing,
                position_ms: *position_ms,
            },
        }
    }
}

/// What a list of commands says.
pub open spec fn command_views(list: Seq<PlaybackCommand>) -> Seq<CommandView> {
    list.map_values(|c: PlaybackCommand| c@)
}

/// What the playback library reports.
#[derive(Clone, Copy, Debug, PartialEq, Eq, Structural)]
pub enum PlayerNotice {
    Playing { position_ms: u32 },
    Paused { position_ms: u32 },
    Stopped,
    EndOfTrack,
    Other,
}

/// The player.
pub struct SpotifyClient {
    queue: Vec<Song>,
    current_pos: Option<usize>,
    volume: u32,
    next_id: u32,
    state: State,
    elapsed_ms: u32,
    duration_ms: Option<u64>,
    commands: Vec<PlaybackCommand>,
}

/// What the player holds.
pub struct ClientView {
    pub queue: Seq<SongView>,
    pub current_pos: Option<usize>,
    pub volume: u32,
    pub next_id: u32,
    pub state: State,
    pub elapsed_ms: u32,
    pub duration_ms: Option<u64>,
    /// The commands that were not taken yet.
    pub commands: Seq<CommandView>,
}

impl View for SpotifyClient {
    type V = ClientView;

    closed spec fn view(&self) -> ClientView {
        ClientView {
            queue: types::song_views(self.queue@),
            current_pos: self.current_pos,
            volume: self.volume,
            next_id: self.next_id,
            state: self.state,
            elapsed_ms: self.elapsed_ms,
            duration_ms: self.duration_ms,
            commands: command_views(self.commands@),
        }
    }
}

/// The first song with this id.
pub open spec fn position_of(queue: Seq<SongView>, id: u32) -> Option<int>
    decreases queue.len(),
{
    if queue.len() == 0 {
        None
    } else {
        match position_of(queue.drop_last(), id) {
            Some(i) => Some(i),
            None => if queue.last().id == id {
                Some(queue.len() - 1)
            } else {
                None
            },
        }
    }
}

/// `n` as a volume.
pub open spec fn clamped(n: int) -> u32 {
    if n < 0 {
        0
    } else if n > MAX_VOLUME {
        MAX_VOLUME
    } else {
        n as u32
    }
}

/// Where `value` seeks to.
pub open spec fn seek_target(value: ValueChange, elapsed_ms: u32) -> int {
    match value {
        ValueChange::SetTo(v) => v * 1000,
        ValueChange::Increase(v) => elapsed_ms + v * 1000,
        ValueChange::Decrease(v) => if v * 1000 <= elapsed_ms {
            elapsed_ms - v * 1000
        } else {
            0
        },
    }
}

/// The milliseconds of `value` fit into 32 bits, and so does the place that it
/// seeks to.
pub open spec fn can_seek(value: ValueChange, elapsed_ms: u32) -> bool {
    match value {
        ValueChange::SetTo(v) => v * 1000 <= u32::MAX,
        ValueChange::Increase(v) => elapsed_ms + v * 1000 <= u32::MAX,
        ValueChange::Decrease(v) => v * 1000 <= u32::MAX,
    }
}

impl ClientView {
    /// A player that has just started.
    pub open spec fn fresh() -> ClientView {
        ClientView {
            queue: Seq::empty(),
            current_pos: None,
            volume: 50,
            next_id: 1,
            state: State::Stop,
            elapsed_ms: 0,
            duration_ms: None,
            commands: Seq::empty(),
        }
    }

    /// The volume is in range, the songs of the queue name tracks and have
    /// rising ids, all of them given out before, and positions can be counted.
    pub open spec fn well_formed(self) -> bool {
        &&& self.volume <= MAX_VOLUME
        &&& self.next_id >= 1
        &&& forall|i: int| 0 <= i < self.queue.len() ==> 1 <= (#[trigger] self.queue[i]).id < self.next_id
        &&& forall|i: int, j: int|
            0 <= i < j < self.queue.len() ==> #[trigger] self.queue[i].id < #[trigger] self.queue[j].id
        &&& forall|i: int|
            0 <= i < self.queue.len() ==> uri::track_id_of((#[trigger] self.queue[i]).file) is Some
        &&& self.queue.len() <= usize::MAX
        &&& self.current_pos matches Some(p) ==> p < usize::MAX
    }

    /// The current position, where there is one, is one of the queue.
    pub open spec fn position_is_valid(self) -> bool {
        self.current_pos matches Some(p) ==> p < self.queue.len()
    }

    pub open spec fn current_song(self) -> Option<SongView> {
        match self.current_pos {
            Some(p) if p < self.queue.len() => Some(self.queue[p as int]),
            _ => None,
        }
    }

    pub open spec fn with_command(self, command: CommandView) -> ClientView {
        ClientView { commands: self.commands.push(command), ..self }
    }

    pub open spec fn resumed(self) -> ClientView {
        ClientView { state: State::Play, ..self }.with_command(CommandView::Play)
    }

    pub open spec fn paused(self) -> ClientView {
        ClientView { state: State::Pause, ..self }.with_command(CommandView::Pause)
    }

    pub open spec fn stopped(self) -> ClientView {
        ClientView { state: State::Stop, ..self }.with_command(CommandView::Stop)
    }

    pub open spec fn toggled(self) -> ClientView {
        if self.state == State::Play {
            self.paused()
        } else {
            self.resumed()
        }
    }

    /// Starts the song at `pos`, whose name can be loaded or not.
    pub open spec fn started(self, pos: int, loadable: bool) -> (
        ClientView,
        Result<(), SpotifyError>,
    ) {
        if pos < 0 || pos >= self.queue.len() {
            (self, Err(SpotifyError::SongNotFoundAtPosition))
        } else if !loadable {
            (self, Err(SpotifyError::InvalidUri))
        } else {
            (
                ClientView { current_pos: Some(pos as usize), ..self }.with_command(
                    CommandView::Load {
                        uri: self.queue[pos].file,
                        start_playing: true,
                        position_ms: 0,
                    },
                ),
                Ok(()),
            )
        }
    }

    /// Starts the song at `pos`.
    pub open spec fn played_pos(self, pos: int) -> (ClientView, Result<(), SpotifyError>) {
        self.started(pos, uri::is_loadable(self.queue[pos].file))
    }

    /// Starts the song with this id.
    pub open spec fn played_id(self, id: u32) -> (ClientView, Result<(), SpotifyError>) {
        match position_of(self.queue, id) {
            Some(pos) => self.played_pos(pos),
            None => (self, Err(SpotifyError::SongNotFound)),
        }
    }

    /// Goes to the next song, where there is one.
    pub open spec fn advanced(self) -> (ClientView, Result<(), SpotifyError>) {
        match self.current_pos {
            Some(p) if p + 1 < self.queue.len() => self.played_pos(p + 1),
            _ => (self, Ok(())),
        }
    }

    /// Goes to the song before, where there is one.
    pub open spec fn rewound(self) -> (ClientView, Result<(), SpotifyError>) {
        match self.current_pos {
            Some(p) if p > 0 => self.played_pos(p - 1),
            _ => (self, Ok(())),
        }
    }

    pub open spec fn sought(self, value: ValueChange) -> ClientView {
        self.with_command(
            CommandView::Seek { position_ms: seek_target(value, self.elapsed_ms) as u32 },
        )
    }

    /// A song for `track` is at the end of the queue.
    pub open spec fn added(self, track: Track, file: Seq<char>) -> ClientView {
        ClientView {
            queue: self.queue.push(catalog::song_of(track, file, self.next_id)),
            next_id: (self.next_id + 1) as u32,
            ..self
        }
    }

    pub open spec fn cleared(self) -> ClientView {
        ClientView { queue: Seq::empty(), current_pos: None, ..self }.with_command(
            CommandView::Stop,
        )
    }

    pub open spec fn with_volume(self, value: ValueChange) -> ClientView {
        ClientView {
            volume: match value {
                ValueChange::SetTo(v) => clamped(v as int),
                ValueChange::Increase(v) => clamped(self.volume + v),
                ValueChange::Decrease(v) => clamped(self.volume - v),
            },
            ..self
        }
    }

    /// The first song with this id is gone. If it was the current one, nothing
    /// is played any more; otherwise the current song stays the same.
    pub open spec fn without_id(self, id: u32) -> ClientView {
        match position_of(self.queue, id) {
            None => self,
            Some(pos) => {
                let rest = ClientView { queue: self.queue.remove(pos), ..self };
                match self.current_pos {
                    Some(p) if p == pos => ClientView { current_pos: None, ..rest }.with_command(
                        CommandView::Stop,
                    ),
                    Some(p) if p > pos => ClientView {
                        current_pos: Some((p - 1) as usize),
                        ..rest
                    },
                    _ => rest,
                }
            },
        }
    }

    /// One song, or the songs of a range as far as there are any, are gone.
    pub open spec fn without_range(self, songs: SingleOrRange) -> ClientView {
        let start = songs.start as int;
        let end = match songs.end {
            Some(end) => if end <= self.queue.len() {
                end as int
            } else {
                self.queue.len() as int
            },
            None => if start < self.queue.len() {
                start + 1
            } else {
                start
            },
        };
        if start < end {
            ClientView { queue: self.queue.take(start) + self.queue.skip(end), ..self }
        } else {
            self
        }
    }

    /// The playback library has reported something.
    pub open spec fn noticed(self, notice: PlayerNotice) -> ClientView {
        match notice {
            PlayerNotice::Playing { position_ms } => ClientView {
                state: State::Play,
                elapsed_ms: position_ms,
                ..self
            },
            PlayerNotice::Paused { position_ms } => ClientView {
                state: State::Pause,
                elapsed_ms: position_ms,
                ..self
            },
            PlayerNotice::Stopped => ClientView { state: State::Stop, ..self },
            PlayerNotice::EndOfTrack => self.advanced().0,
            PlayerNotice::Other => self,
        }
    }

    /// The playback library has reported several things, one after the other.
    pub open spec fn noticed_all(self, notices: Seq<PlayerNotice>) -> ClientView
        decreases notices.len(),
    {
        if notices.len() == 0 {
            self
        } else {
            self.noticed_all(notices.drop_last()).noticed(notices.last())
        }
    }

    /// The status to report; what the player does not know is as in `base`.
    pub open spec fn status(self, base: Status) -> Status {
        Status {
            volume: self.volume,
            state: self.state,
            song: self.current_pos,
            songid: match self.current_song() {
                Some(song) => Some(song.id),
                None => None,
            },
            elapsed_ms: self.elapsed_ms as u64,
            duration_ms: match self.duration_ms {
                Some(d) => d,
                None => 0,
            },
            ..base
        }
    }
}

/// Something worth telling has happened.
pub open spec fn is_change(notice: PlayerNotice) -> bool {
    notice != PlayerNotice::Other
}

/// One of the reports tells of something worth telling.
pub open spec fn tells_change(notices: Seq<PlayerNotice>) -> bool {
    exists|i: int| 0 <= i < notices.len() && is_change(#[trigger] notices[i])
}

proof fn lemma_nothing_noticed(before: ClientView, notices: Seq<PlayerNotice>)
    requires
        !tells_change(notices),
    ensures
        before.noticed_all(notices) == before,
    decreases notices.len(),
{
    if notices.len() > 0 {
        assert(!is_change(notices[notices.len() - 1]));
        assert forall|i: int| 0 <= i < notices.len() - 1 implies !is_change(
            #[trigger] notices.drop_last()[i],
        ) by {
            assert(!is_change(notices[i]));
        }
        lemma_nothing_noticed(before, notices.drop_last());
    }
}

/// A track to ask the Web API for.
pub struct TrackRequest {
    /// The name under which it goes into the queue.
    pub uri: String,
    pub track_id: String,
}

impl TrackRequest {
    /// The track that a name stands for.
    pub open spec fn is_for(self, uri: Seq<char>) -> bool {
        self.uri@ == uri && uri::track_id_of(uri) == Some(self.track_id@)
    }
}

impl SpotifyClient {
    /// Starts a player for someone who is logged in. Gives back the token to
    /// connect with.
    pub fn init(token: Option<String>) -> (r: Result<(SpotifyClient, String), SpotifyError>)
        ensures
            match r {
                Ok((client, t)) => token == Some(t) && client@ == ClientView::fresh()
                    && client@.well_formed(),
                Err(e) => token is None && e == SpotifyError::NotLoggedIn,
            },
    {
        match token {
            None => Err(SpotifyError::NotLoggedIn),
            Some(token) => {
                let client = SpotifyClient {
                    queue: Vec::new(),
                    current_pos: None,
                    volume: 50,
                    next_id: 1,
                    state: State::Stop,
                    elapsed_ms: 0,
                    duration_ms: None,
                    commands: Vec::new(),
                };
                assert(client@.queue == ClientView::fresh().queue);
                assert(client@.commands == ClientView::fresh().commands);
                Ok((client, token))
            },
        }
    }

    /// Takes the commands for the playback library.
    pub fn take_commands(&mut self) -> (r: Vec<PlaybackCommand>)
        ensures
            command_views(r@) == old(self)@.commands,
            final(self)@ == (ClientView { commands: Seq::empty(), ..old(self)@ }),
    {
        let mut taken: Vec<PlaybackCommand> = Vec::new();
        std::mem::swap(&mut taken, &mut self.commands);
        assert(self@.commands == Seq::<CommandView>::empty());
        taken
    }

    fn command(&mut self, command: PlaybackCommand)
        ensures
            final(self)@ == old(self)@.with_command(command@),
            final(self).queue == old(self).queue,
    {
        self.commands.push(command);
        assert(self@.commands == old(self)@.commands.push(command@));
    }

    pub fn name(&self) -> (r: String)
        ensures
            r@ == "spotify"@,
    {
        String::from_str("spotify")
    }

    pub fn version(&self) -> (r: Version)
        ensures
            r == (Version { major: 0, minor: 1, patch: 0 }),
    {
        Version::new(0, 1, 0)
    }

    /// There is one partition.
    pub fn list_partitions(&self) -> (r: Vec<String>)
        ensures
            crate::text::views(r@) == seq!["default"@],
    {
        let mut list: Vec<String> = Vec::new();
        list.push(String::from_str("default"));
        list
    }

    /// There is no database: every update is the same job.
    pub fn update(&self) -> (r: Update)
        ensures
            r.job_id == 0,
    {
        Update { job_id: 0 }
    }

    pub fn play(&mut self, pos: Option<usize>) -> (r: Result<(), SpotifyError>)
        requires
            old(self)@.well_formed(),
        ensures
            (final(self)@, r) == (match pos {
                Some(pos) => old(self)@.played_pos(pos as int),
                None => (old(self)@.resumed(), Ok(())),
            }),
            final(self)@.well_formed(),
    {
        match pos {
            Some(pos) => self.play_pos(pos),
            None => {
                self.unpause();
                Ok(())
            },
        }
    }

    pub fn pause(&mut self)
        requires
            old(self)@.well_formed(),
        ensures
            final(self)@ == old(self)@.paused(),
            final(self)@.well_formed(),
    {
        self.command(PlaybackCommand::Pause);
        self.state = State::Pause;
    }

    pub fn unpause(&mut self)
        requires
            old(self)@.well_formed(),
        ensures
            final(self)@ == old(self)@.resumed(),
            final(self)@.well_formed(),
    {
        self.command(PlaybackCommand::Play);
        self.state = State::Play;
    }

    pub fn pause_toggle(&mut self)
        requires
            old(self)@.well_formed(),
        ensures
            final(self)@ == old(self)@.toggled(),
            final(self)@.well_formed(),
    {
        match self.state {
            State::Play => self.pause(),
            _ => self.unpause(),
        }
    }

    pub fn stop(&mut self)
        requires
            old(self)@.well_formed(),
        ensures
            final(self)@ == old(self)@.stopped(),
            final(self)@.well_formed(),
    {
        self.command(PlaybackCommand::Stop);
        self.state = State::Stop;
    }

    /// Starts the song at `pos`, given whether its name can be loaded.
    pub fn start(&mut self, pos: usize, loadable: bool) -> (r: Result<(), SpotifyError>)
        requires
            old(self)@.well_formed(),
        ensures
            (final(self)@, r) == old(self)@.started(pos as int, loadable),
            final(self)@.well_formed(),
    {
        if pos >= self.queue.len() {
            return Err(SpotifyError::SongNotFoundAtPosition);
        }
        if !loadable {
            return Err(SpotifyError::InvalidUri);
        }
        let uri = self.queue[pos].file.clone();
        self.command(PlaybackCommand::Load { uri, start_playing: true, position_ms: 0 });
        self.current_pos = Some(pos);
        Ok(())
    }

    pub fn play_pos(&mut self, pos: usize) -> (r: Result<(), SpotifyError>)
        requires
            old(self)@.well_formed(),
        ensures
            (final(self)@, r) == old(self)@.played_pos(pos as int),
            final(self)@.well_formed(),
    {
        if pos >= self.queue.len() {
            return Err(SpotifyError::SongNotFoundAtPosition);
        }
        let loadable = uri::can_load(self.queue[pos].file.as_str());
        self.start(pos, loadable)
    }

    fn find_id(&self, id: u32) -> (r: Option<usize>)
        ensures
            match r {
                Some(p) => position_of(self@.queue, id) == Some(p as int) && p < self.queue@.len(),
                None => position_of(self@.queue, id) is None,
            },
    {
        let mut i: usize = 0;
        while i < self.queue.len()
            invariant
                i <= self.queue.len(),
                position_of(self@.queue.take(i as int), id) is None,
            decreases self.queue.len() - i,
        {
            proof {
                assert(self@.queue.take(i + 1).drop_last() == self@.queue.take(i as int));
            }
            if self.queue[i].id == id {
                proof {
                    lemma_position_in_prefix(self@.queue, id, i + 1);
                }
                return Some(i);
            }
            i = i + 1;
        }
        assert(self@.queue.take(i as int) == self@.queue);
        None
    }

    pub fn play_id(&mut self, id: u32) -> (r: Result<(), SpotifyError>)
        requires
            old(self)@.well_formed(),
        ensures
            (final(self)@, r) == old(self)@.played_id(id),
            final(self)@.well_formed(),
    {
        match self.find_id(id) {
            Some(pos) => self.play_pos(pos),
            None => Err(SpotifyError::SongNotFound),
        }
    }

    pub fn next(&mut self) -> (r: Result<(), SpotifyError>)
        requires
            old(self)@.well_formed(),
        ensures
            (final(self)@, r) == old(self)@.advanced(),
            final(self)@.well_formed(),
    {
        match self.current_pos {
            Some(pos) => if pos + 1 < self.queue.len() {
                self.play_pos(pos + 1)
            } else {
                Ok(())
            },
            None => Ok(()),
        }
    }

    pub fn prev(&mut self) -> (r: Result<(), SpotifyError>)
        requires
            old(self)@.well_formed(),
        ensures
            (final(self)@, r) == old(self)@.rewound(),
            final(self)@.well_formed(),
    {
        match self.current_pos {
            Some(pos) => if pos > 0 {
                self.play_pos(pos - 1)
            } else {
                Ok(())
            },
            None => Ok(()),
        }
    }

    /// Whether `seek_current` can go where `value` leads.
    pub fn seek_fits(&self, value: ValueChange) -> (r: bool)
        ensures
            r == can_seek(value, self@.elapsed_ms),
    {
        match value {
            ValueChange::SetTo(v) => v <= u32::MAX / 1000,
            ValueChange::Increase(v) => v <= (u32::MAX - self.elapsed_ms) / 1000,
            ValueChange::Decrease(v) => v <= u32::MAX / 1000,
        }
    }

    pub fn seek_current(&mut self, value: ValueChange)
        requires
            old(self)@.well_formed(),
            can_seek(value, old(self)@.elapsed_ms),
        ensures
            final(self)@ == old(self)@.sought(value),
            final(self)@.well_formed(),
    {
        let position_ms: u32 = match value {
            ValueChange::SetTo(v) => v * 1000,
            ValueChange::Increase(v) => self.elapsed_ms + v * 1000,
            ValueChange::Decrease(v) => if v * 1000 <= self.elapsed_ms {
                self.elapsed_ms - v * 1000
            } else {
                0
            },
        };
        self.command(PlaybackCommand::Seek { position_ms });
    }

    /// The status, after what the playback library has reported.
    pub fn get_status(&mut self, notices: &Vec<PlayerNotice>, base: Status) -> (r: Status)
        requires
            old(self)@.well_formed(),
        ensures
            final(self)@ == old(self)@.noticed_all(notices@),
            final(self)@.well_formed(),
            r == final(self)@.status(base),
    {
        let _changed = self.poll_events(notices);
        let songid: Option<u32> = match self.current_pos {
            Some(p) => if p < self.queue.len() {
                Some(self.queue[p].id)
            } else {
                None
            },
            None => None,
        };
        let duration_ms: u64 = match self.duration_ms {
            Some(d) => d,
            None => 0,
        };
        Status {
            volume: self.volume,
            state: self.state,
            song: self.current_pos,
            songid,
            elapsed_ms: self.elapsed_ms as u64,
            duration_ms,
            updating_db: base.updating_db,
            repeat: base.repeat,
            random: base.random,
            single: base.single,
            consume: base.consume,
        }
    }

    pub fn get_current_song(&self) -> (r: Option<Song>)
        ensures
            match r {
                Some(song) => self@.current_song() == Some(song@),
                None => self@.current_song() is None,
            },
    {
        match self.current_pos {
            Some(p) => if p < self.queue.len() {
                Some(self.queue[p].clone())
            } else {
                None
            },
            None => None,
        }
    }

    /// How many songs are in the queue.
    pub fn queue_len(&self) -> (r: usize)
        ensures
            r == self@.queue.len(),
    {
        self.queue.len()
    }

    pub fn get_queue(&self) -> (r: Vec<Song>)
        ensures
            types::song_views(r@) == self@.queue,
    {
        clone_songs(&self.queue)
    }

    /// The track to ask for in order to add `uri` to the queue.
    pub fn add(&self, uri: &str) -> (r: Result<TrackRequest, SpotifyError>)
        ensures
            match r {
                Ok(request) => request.is_for(uri@),
                Err(e) => uri::track_id_of(uri@) is None && e == SpotifyError::InvalidUri,
            },
    {
        match uri::track_id(uri) {
            Some(track_id) => Ok(TrackRequest { uri: String::from_str(uri), track_id }),
            None => Err(SpotifyError::InvalidUri),
        }
    }

    /// Whether there are ids left for new songs.
    pub fn has_free_id(&self) -> (r: bool)
        ensures
            r == (self@.next_id < u32::MAX),
    {
        self.next_id < u32::MAX
    }

    /// Adds the track that was asked for to the end of the queue.
    pub fn add_track(&mut self, request: TrackRequest, track: Track)
        requires
            old(self)@.well_formed(),
            old(self)@.next_id < u32::MAX,
            request.is_for(request.uri@),
        ensures
            final(self)@ == old(self)@.added(track, request.uri@),
            final(self)@.well_formed(),
    {
        let song = song_from_track(track, request.uri, self.next_id);
        self.queue.push(song);
        self.next_id = self.next_id + 1;
        assert(self@.queue == old(self)@.queue.push(song@));
        assert(self@.queue.len() == self.queue.len());
    }

    pub fn clear_queue(&mut self)
        requires
            old(self)@.well_formed(),
        ensures
            final(self)@ == old(self)@.cleared(),
            final(self)@.well_formed(),
    {
        self.queue.clear();
        self.current_pos = None;
        assert(self@.queue == Seq::<SongView>::empty());
        self.command(PlaybackCommand::Stop);
    }

    pub fn volume(&mut self, volume: ValueChange)
        requires
            old(self)@.well_formed(),
        ensures
            final(self)@ == old(self)@.with_volume(volume),
            final(self)@.well_formed(),
    {
        let wanted: u32 = match volume {
            ValueChange::SetTo(v) => v,
            ValueChange::Increase(v) => self.volume.saturating_add(v),
            ValueChange::Decrease(v) => self.volume.saturating_sub(v),
        };
        self.volume = if wanted > MAX_VOLUME {
            MAX_VOLUME
        } else {
            wanted
        };
    }

    pub fn delete_id(&mut self, id: u32)
        requires
            old(self)@.well_formed(),
        ensures
            final(self)@ == old(self)@.without_id(id),
            final(self)@.well_formed(),
    {
        if let Some(pos) = self.find_id(id) {
            let _song = self.queue.remove(pos);
            assert(self@.queue == old(self)@.queue.remove(pos as int));
            match self.current_pos {
                Some(p) => if p == pos {
                    self.current_pos = None;
                    self.command(PlaybackCommand::Stop);
                } else if p > pos {
                    self.current_pos = Some(p - 1);
                },
                None => {},
            }
        }
    }

    pub fn delete_from_queue(&mut self, songs: SingleOrRange)
        requires
            old(self)@.well_formed(),
        ensures
            final(self)@ == old(self)@.without_range(songs),
            final(self)@.well_formed(),
    {
        let start = songs.start;
        let end: usize = match songs.end {
            Some(end) => if end <= self.queue.len() {
                end
            } else {
                self.queue.len()
            },
            None => if start < self.queue.len() {
                start + 1
            } else {
                start
            },
        };
        if start >= end {
            return;
        }
        let ghost all = self@.queue;
        assert(all == all.take(end as int) + all.skip(end as int));
        let mut left: usize = end;
        while left > start
            invariant
                start <= left <= end <= all.len(),
                self@.queue == all.take(left as int) + all.skip(end as int),
                self@ == (ClientView { queue: self@.queue, ..old(self)@ }),
            decreases left,
        {
            left = left - 1;
            let ghost before = self@.queue;
            assert(self.queue@.len() == before.len());
            let _song = self.queue.remove(left);
            assert(self@.queue == before.remove(left as int));
        }
    }

    /// Takes in what the playback library has reported. Tells whether
    /// something has changed.
    pub fn poll_events(&mut self, notices: &Vec<PlayerNotice>) -> (changed: bool)
        requires
            old(self)@.well_formed(),
        ensures
            final(self)@ == old(self)@.noticed_all(notices@),
            final(self)@.well_formed(),
            changed == exists|i: int| 0 <= i < notices@.len() && is_change(#[trigger] notices@[i]),
            changed == tells_change(notices@),
            (exists|i: int|
                0 <= i < notices@.len() && (#[trigger] notices@[i] is Playing || notices@[i] is Paused
                    || notices@[i] is Stopped || notices@[i] is EndOfTrack)) <==> changed,
            final(self)@.state != old(self)@.state ==> changed,
            final(self)@.elapsed_ms != old(self)@.elapsed_ms ==> changed,
            final(self)@.current_pos != old(self)@.current_pos ==> changed,
            final(self)@.commands != old(self)@.commands ==> changed,
    {
        let mut changed = false;
        let mut i: usize = 0;
        while i < notices.len()
            invariant
                i <= notices.len(),
                self@.well_formed(),
                self@ == old(self)@.noticed_all(notices@.take(i as int)),
                changed == exists|j: int| 0 <= j < i && is_change(#[trigger] notices@[j]),
            decreases notices.len() - i,
        {
            match notices[i] {
                PlayerNotice::Playing { position_ms } => {
                    self.state = State::Play;
                    self.elapsed_ms = position_ms;
                    changed = true;
                },
                PlayerNotice::Paused { position_ms } => {
                    self.state = State::Pause;
                    self.elapsed_ms = position_ms;
                    changed = true;
                },
                PlayerNotice::Stopped => {
                    self.state = State::Stop;
                    changed = true;
                },
                PlayerNotice::EndOfTrack => {
                    let _outcome = self.next();
                    changed = true;
                },
                PlayerNotice::Other => {},
            }
            assert(is_change(notices@[i as int]) == (notices@[i as int] != PlayerNotice::Other));
            i = i + 1;
            assert(notices@.take(i as int).drop_last() == notices@.take(i - 1));
        }
        assert(notices@.take(i as int) == notices@);
        proof {
            if !changed {
                lemma_nothing_noticed(old(self)@, notices@);
            }
        }
        changed
    }

    /// Downloads are for players that play files.
    pub fn add_downloaded_file_to_queue(&self) -> (r: Result<(), SpotifyError>)
        ensures
            r == Err::<(), SpotifyError>(SpotifyError::NoDownloads),
    {
        Err(SpotifyError::NoDownloads)
    }
}

/// The break handle of the Spotify player, which never waits for long: there
/// is nothing to break.
#[derive(Debug)]
pub struct SpotifyBreakHandle {}

impl PlayerBreakHandle for SpotifyBreakHandle {
    type Error = SpotifyError;

    fn break_idle(&self) -> (r: Result<(), SpotifyError>)
        ensures
            r is Ok,
    {
        Ok(())
    }
}

proof fn lemma_position_in_prefix(queue: Seq<SongView>, id: u32, n: int)
    requires
        0 <= n <= queue.len(),
        position_of(queue.take(n), id) is Some,
    ensures
        position_of(queue, id) == position_of(queue.take(n), id),
    decreases queue.len(),
{
    if n == queue.len() {
        assert(queue.take(n) == queue);
    } else {
        assert(queue.drop_last().take(n) == queue.take(n));
        lemma_position_in_prefix(queue.drop_last(), id, n);
    }
}

} // verus!
