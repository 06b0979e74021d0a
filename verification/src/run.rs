//! A command on its way: what it asks of the player, and what it does with the answers.
//!
//! A run is a state machine. `Run::resume` takes the answer to the last
//! action and gives the next one, until the run is `Run::Over`.

use crate::mpd::types::{
    AlbumArtOrder, Decoder, Filter, FilterKind, OnOffOneshot, QueuePosition, Song, State, Status,
    Tag, Update, ValueChange, Version,
};
use crate::path;
use crate::player::Enqueue;
use crate::text;
use vstd::prelude::*;

verus! {

/// A request to the player.
pub enum PlayerCall {
    AddRandomSongs { count: usize, filter: Option<Vec<Filter>> },
    AddRandomTag { count: usize, tag: Tag },
    Update { path: Option<String> },
    Rescan { path: Option<String> },
    WaitForEvent,
    GetStatus,
    GetVersion,
    GetQueue,
    ListAll { path: Option<String> },
    Play { pos: Option<usize> },
    PlayPos { pos: usize },
    Pause,
    PauseToggle,
    Unpause,
    Stop,
    Volume { value: ValueChange },
    NextKeepState { keep: bool, state: State },
    PrevKeepState { keep: bool, state: State },
    SeekCurrent { value: ValueChange },
    SetRepeat { enabled: bool },
    SetRandom { enabled: bool },
    SetSingle { single: OnOffOneshot },
    SetConsume { consume: OnOffOneshot },
    /// Set single mode to the one that follows `from`.
    CycleSingle { from: OnOffOneshot, skip_oneshot: bool },
    /// Set consume mode to the one that follows `from`.
    CycleConsume { from: OnOffOneshot, skip_oneshot: bool },
    ClearQueue,
    GetConfig,
    Decoders,
    Add { uri: String, position: Option<QueuePosition> },
    AddDownloaded { path: String, cache_dir: Option<String>, position: Option<QueuePosition> },
    SaveQueue { name: String, mode: Option<String> },
    /// Put `item` alone into the queue.
    EnqueueOne {
        item: Enqueue,
        autoplay_idx: Option<usize>,
        position: Option<QueuePosition>,
        replace: bool,
    },
    Outputs,
    ToggleOutput { id: u32 },
    EnableOutput { id: u32 },
    DisableOutput { id: u32 },
    /// The one song that `filter` lets through.
    FindOne { filter: Filter },
    CurrentSong,
    Mount { name: String, path: String },
    Unmount { name: String },
    ListMounts,
    ListPartitions,
    AlbumArt { file: String, order: AlbumArtOrder },
    SetSticker { uri: String, key: String, value: String },
    Sticker { uri: String, key: String },
    DeleteSticker { uri: String, key: String },
    DeleteAllStickers { uri: String },
    ListStickers { uri: String },
    FindStickers { uri: String, key: String, filter: Option<String> },
    SendMessage { channel: String, content: String },
}

/// Why a run was broken off.
#[derive(Clone, Copy, Debug, PartialEq, Eq, Structural)]
pub enum RunError {
    /// The last action failed; its own error is the reason.
    ActionFailed,
    /// A volume that is not a number.
    InvalidNumber,
    LyricsDirNotConfigured,
}

impl RunError {
    /// The text of the error, where it is not one from outside.
    pub open spec fn text(self) -> Option<Seq<char>> {
        match self {
            RunError::ActionFailed | RunError::InvalidNumber => None,
            RunError::LyricsDirNotConfigured => Some("Lyrics dir is not configured"@),
        }
    }

    /// The text of the error, where it is not one from outside.
    pub fn message(&self) -> (r: Option<String>)
        ensures
            match r {
                Some(message) => self.text() == Some(message@),
                None => self.text() is None,
            },
    {
        match self {
            RunError::ActionFailed => None,
            RunError::InvalidNumber => None,
            RunError::LyricsDirNotConfigured => Some(
                String::from_str("Lyrics dir is not configured"),
            ),
        }
    }
}

/// What to tell the user who adds an absolute path to a player that does not tell
/// its music directory.
pub const NO_SOCKET: &'static str = "Cannot add absolute path without socket connection to MPD";

/// What to tell the user of a downloaded file that could not be added.
pub fn not_added_line(error: &str) -> (r: String)
    ensures
        r@ == "Failed to add downloaded file to queue: "@ + error@,
{
    let mut line = String::from_str("Failed to add downloaded file to queue: ");
    line.append(error);
    line
}

/// The condition that holds of the song whose file is `path`.
pub open spec fn file_filter(path: String) -> Filter {
    Filter { tag: Tag::File, value: path, kind: FilterKind::Exact }
}

/// The condition that holds of the song whose file is `path`.
pub fn filter_for_file(path: String) -> (r: Filter)
    ensures
        r == file_filter(path),
{
    Filter { tag: Tag::File, value: path, kind: FilterKind::Exact }
}

/// The call that puts the playlist `name` behind the queue.
pub open spec fn playlist_call(name: String) -> PlayerCall {
    PlayerCall::EnqueueOne {
        item: Enqueue::Playlist { name },
        autoplay_idx: None,
        position: None,
        replace: false,
    }
}

/// Where album art goes.
pub enum ArtTarget {
    Stdout,
    File(String),
}

/// How adding a downloaded file went.
#[derive(Clone, Copy, Debug, PartialEq, Eq, Structural)]
pub enum AddOutcome {
    Added,
    /// It failed: print `not_added_line` and go on.
    Reported,
    /// It failed: hand the error to the download.
    Refused,
}

/// What has to happen next.
pub enum Action {
    Call(PlayerCall),
    ParseValueChange(String),
    IndexLyrics { dir: String },
    /// Download `url`; every file that arrives is an answer of its own.
    Download { url: String },
    /// Go on with the download.
    NextDownload(AddOutcome),
    /// Print what the player answered last, as JSON.
    PrintReply,
    PrintSong(Song),
    PrintSongs(Vec<Song>),
    PrintLines(Vec<String>),
    /// Print the line, then leave with exit code 1.
    PrintLineAndExit(String),
    WriteArt { target: ArtTarget, data: Vec<u8> },
    /// Show the line as an error in the status bar, then finish.
    ReportAndFinish(String),
    Exit(i32),
    Finish,
    Abort(RunError),
}

/// The answer to an action.
pub enum Reply {
    Done,
    Failed,
    /// A value that the library does not look at.
    Value,
    Status(Status),
    Version(Version),
    Update(Update),
    /// The files of the listed songs.
    Files(Vec<String>),
    /// The music directory, where the player tells it.
    MusicDirectory(Option<String>),
    Decoders(Vec<Decoder>),
    Song(Option<Song>),
    Art(Option<Vec<u8>>),
    Sticker { found: bool },
    ValueChange(ValueChange),
    Downloaded(String),
    DownloadOver,
}

/// What a run is waiting for.
pub enum Run {
    /// Nothing: the run is over.
    Over,
    /// The outcome of its last action.
    Last,
    /// A value to print.
    Show,
    /// A status whose volume to print.
    ShowVolume,
    /// The outcome of a call; `rest` comes after it.
    Calls { rest: Vec<PlayerCall> },
    UpdateJob { wait: bool },
    WaitEvent { job_id: u32 },
    WaitStatus { job_id: u32 },
    /// The files below one path; `rest` are the paths still to list.
    ListAll { rest: Vec<String>, found: Vec<String> },
    TogglePause,
    Next { keep_state: bool },
    Prev { rewind_to_start: Option<u64>, keep_state: bool },
    ToggleRepeat,
    ToggleRandom,
    ToggleSingle { skip_oneshot: bool },
    ToggleSingleVersion { from: OnOffOneshot },
    ToggleConsume { skip_oneshot: bool },
    ToggleConsumeVersion { from: OnOffOneshot },
    Seek,
    AddConfig { files: Vec<String>, skip_ext_check: bool, position: Option<QueuePosition> },
    AddDecoders { files: Vec<String>, dir: String, position: Option<QueuePosition> },
    Download { lenient: bool, cache_dir: Option<String>, position: Option<QueuePosition> },
    AddDownloaded { lenient: bool, cache_dir: Option<String>, position: Option<QueuePosition> },
    OneSong { path: String },
    Songs { path: String, rest: Vec<String>, found: Vec<Song> },
    CurrentSong,
    ArtSong { output: String },
    Art { output: String },
    StickerGet,
}

/// The order in which songs are added: back to front where every one goes to
/// the same place and pushes the one before it back.
pub open spec fn insertion_order<T>(items: Seq<T>, position: Option<QueuePosition>) -> Seq<T> {
    match position {
        Some(QueuePosition::Absolute(_)) | Some(QueuePosition::RelativeAdd(_)) => items.reverse(),
        _ => items,
    }
}

/// The suffixes of all decoders.
pub open spec fn all_suffixes(decoders: Seq<Decoder>) -> Seq<Seq<char>>
    decreases decoders.len(),
{
    if decoders.len() == 0 {
        Seq::empty()
    } else {
        all_suffixes(decoders.drop_last()) + text::views(decoders.last().suffixes@)
    }
}

/// Whether a file can be played: its extension is among `suffixes`, or it is
/// the root directory.
pub open spec fn supported(file: Seq<char>, suffixes: Seq<Seq<char>>) -> bool {
    file == seq!['/'] || match path::extension_of(file) {
        Some(e) => suffixes.contains(e),
        None => false,
    }
}

/// The files that can be played, in order.
pub open spec fn supported_files(files: Seq<String>, suffixes: Seq<Seq<char>>) -> Seq<String>
    decreases files.len(),
{
    if files.len() == 0 {
        Seq::empty()
    } else {
        let init = supported_files(files.drop_last(), suffixes);
        if supported(files.last()@, suffixes) {
            init.push(files.last())
        } else {
            init
        }
    }
}

/// What the player calls a file: its path below the music directory `dir`, or
/// the path itself where it lies elsewhere.
pub open spec fn song_uri(file: Seq<char>, dir: Seq<char>) -> Seq<char> {
    if path::lies_under(file, dir) {
        path::below_dir(file, dir)
    } else {
        file
    }
}

/// The names of all files.
pub open spec fn song_uris(files: Seq<String>, dir: Seq<char>) -> Seq<Seq<char>> {
    files.map_values(|f: String| song_uri(f@, dir))
}

/// `calls` adds the songs `uris` at `position`, one after the other.
pub open spec fn adds(
    calls: Seq<PlayerCall>,
    uris: Seq<Seq<char>>,
    position: Option<QueuePosition>,
) -> bool {
    &&& calls.len() == uris.len()
    &&& forall|i: int|
        0 <= i < calls.len() ==> is_add(#[trigger] calls[i], uris[i], position)
}

/// `call` adds the song `uri` at `position`.
pub open spec fn is_add(
    call: PlayerCall,
    uri: Seq<char>,
    position: Option<QueuePosition>,
) -> bool {
    match call {
        PlayerCall::Add { uri: u, position: p } => u@ == uri && p == position,
        _ => false,
    }
}

/// A run that makes `calls` one after the other has just begun.
pub open spec fn begins(calls: Seq<PlayerCall>, run: Run, action: Action) -> bool {
    if calls.len() == 0 {
        run is Over && action == Action::Finish
    } else {
        &&& action == Action::Call(calls[0])
        &&& run matches Run::Calls { rest }
        &&& rest@ == calls.skip(1)
    }
}

/// A run that adds `uris` at `position` has just begun.
pub open spec fn begins_adding(
    uris: Seq<Seq<char>>,
    position: Option<QueuePosition>,
    run: Run,
    action: Action,
) -> bool {
    if uris.len() == 0 {
        run is Over && action == Action::Finish
    } else {
        &&& action matches Action::Call(call)
        &&& is_add(call, uris[0], position)
        &&& run matches Run::Calls { rest }
        &&& adds(rest@, uris.skip(1), position)
    }
}

/// The message for a song that is not there.
pub open spec fn not_found_line(path: Seq<char>) -> Seq<char> {
    "Song with path '"@ + path + "' not found."@
}

impl Run {
    /// Whether `reply` can be the answer to the action that this run waits for.
    pub open spec fn accepts(self, reply: Reply) -> bool {
        match self {
            Run::Over => false,
            Run::Last | Run::Calls { .. } | Run::WaitEvent { .. } | Run::AddDownloaded { .. } => {
                reply is Done || reply is Failed
            },
            Run::Show => reply is Value || reply is Failed,
            Run::ShowVolume | Run::WaitStatus { .. } | Run::TogglePause | Run::Next { .. }
            | Run::Prev { .. } | Run::ToggleRepeat | Run::ToggleRandom | Run::ToggleSingle { .. }
            | Run::ToggleConsume { .. } => reply is Status || reply is Failed,
            Run::ToggleSingleVersion { .. } | Run::ToggleConsumeVersion { .. } => reply is Version,
            Run::UpdateJob { .. } => reply is Update || reply is Failed,
            Run::ListAll { .. } => reply is Files || reply is Failed,
            Run::Seek => reply is ValueChange || reply is Failed,
            Run::AddConfig { .. } => reply is MusicDirectory,
            Run::AddDecoders { .. } => reply is Decoders || reply is Failed,
            Run::Download { .. } => reply is Downloaded || reply is DownloadOver
                || reply is Failed,
            Run::OneSong { .. } | Run::Songs { .. } | Run::CurrentSong | Run::ArtSong { .. } => {
                reply is Song || reply is Failed
            },
            Run::Art { .. } => reply is Art || reply is Failed,
            Run::StickerGet => reply is Sticker || reply is Failed,
        }
    }

    /// What a run does with an answer that is no failure.
    pub open spec fn continues(self, reply: Reply, run: Run, action: Action) -> bool {
        match (self, reply) {
            (Run::Last, _) => run is Over && action == Action::Finish,
            (Run::Show, _) => run is Last && action == Action::PrintReply,
            (Run::ShowVolume, Reply::Status(s)) => {
                &&& run is Last
                &&& action matches Action::PrintLines(lines)
                &&& lines@.len() == 1
                &&& lines@[0]@ == text::decimal(s.volume as nat)
            },
            (Run::Calls { rest }, _) => begins(rest@, run, action),
            (Run::UpdateJob { wait }, Reply::Update(u)) => if wait {
                run == (Run::WaitEvent { job_id: u.job_id }) && action == Action::Call(
                    PlayerCall::WaitForEvent,
                )
            } else {
                run is Over && action == Action::Finish
            },
            (Run::WaitEvent { job_id }, _) => run == (Run::WaitStatus { job_id }) && action
                == Action::Call(PlayerCall::GetStatus),
            (Run::WaitStatus { job_id }, Reply::Status(s)) => if (s.updating_db matches Some(
                current,
            ) && current <= job_id) {
                run == (Run::WaitEvent { job_id }) && action == Action::Call(
                    PlayerCall::WaitForEvent,
                )
            } else {
                run is Over && action == Action::Finish
            },
            (Run::ListAll { rest, found }, Reply::Files(files)) => if rest@.len() == 0 {
                &&& run is Last
                &&& action matches Action::PrintLines(lines)
                &&& lines@ == found@ + files@
            } else {
                &&& action == Action::Call(PlayerCall::ListAll { path: Some(rest@[0]) })
                &&& run matches Run::ListAll { rest: rest2, found: found2 }
                &&& rest2@ == rest@.skip(1)
                &&& found2@ == found@ + files@
            },
            (Run::TogglePause, Reply::Status(s)) => run is Last && action == Action::Call(
                if s.state == State::Play || s.state == State::Pause {
                    PlayerCall::PauseToggle
                } else {
                    PlayerCall::Play { pos: None }
                },
            ),
            (Run::Next { keep_state }, Reply::Status(s)) => run is Last && action == Action::Call(
                PlayerCall::NextKeepState { keep: keep_state, state: s.state },
            ),
            (Run::Prev { rewind_to_start, keep_state }, Reply::Status(s)) => {
                let rewind = rewind_to_start matches Some(secs) && s.elapsed_ms / 1000 >= secs;
                run is Last && action == Action::Call(
                    if rewind {
                        PlayerCall::SeekCurrent { value: ValueChange::SetTo(0) }
                    } else {
                        PlayerCall::PrevKeepState { keep: keep_state, state: s.state }
                    },
                )
            },
            (Run::ToggleRepeat, Reply::Status(s)) => run is Last && action == Action::Call(
                PlayerCall::SetRepeat { enabled: !s.repeat },
            ),
            (Run::ToggleRandom, Reply::Status(s)) => run is Last && action == Action::Call(
                PlayerCall::SetRandom { enabled: !s.random },
            ),
            (Run::ToggleSingle { skip_oneshot }, Reply::Status(s)) => if skip_oneshot {
                run is Last && action == Action::Call(
                    PlayerCall::CycleSingle { from: s.single, skip_oneshot: true },
                )
            } else {
                run == (Run::ToggleSingleVersion { from: s.single }) && action == Action::Call(
                    PlayerCall::GetVersion,
                )
            },
            (Run::ToggleSingleVersion { from }, Reply::Version(v)) => run is Last && action
                == Action::Call(
                PlayerCall::CycleSingle { from, skip_oneshot: v.before(single_oneshot_since()) },
            ),
            (Run::ToggleConsume { skip_oneshot }, Reply::Status(s)) => if skip_oneshot {
                run is Last && action == Action::Call(
                    PlayerCall::CycleConsume { from: s.consume, skip_oneshot: true },
                )
            } else {
                run == (Run::ToggleConsumeVersion { from: s.consume }) && action == Action::Call(
                    PlayerCall::GetVersion,
                )
            },
            (Run::ToggleConsumeVersion { from }, Reply::Version(v)) => run is Last && action
                == Action::Call(
                PlayerCall::CycleConsume { from, skip_oneshot: v.before(consume_oneshot_since()) },
            ),
            (Run::Seek, Reply::ValueChange(v)) => run is Last && action == Action::Call(
                PlayerCall::SeekCurrent { value: v },
            ),
            (Run::AddConfig { files, skip_ext_check, position }, Reply::MusicDirectory(dir)) => match dir {
                None => {
                    &&& run is Over
                    &&& action matches Action::ReportAndFinish(line)
                    &&& line@ == NO_SOCKET@
                },
                Some(dir) => if skip_ext_check {
                    begins_adding(
                        song_uris(insertion_order(files@, position), dir@),
                        position,
                        run,
                        action,
                    )
                } else {
                    run == (Run::AddDecoders { files, dir, position }) && action == Action::Call(
                        PlayerCall::Decoders,
                    )
                },
            },
            (Run::AddDecoders { files, dir, position }, Reply::Decoders(decoders)) => begins_adding(
                song_uris(
                    insertion_order(supported_files(files@, all_suffixes(decoders@)), position),
                    dir@,
                ),
                position,
                run,
                action,
            ),
            (Run::Download { lenient, cache_dir, position }, Reply::Downloaded(path)) => {
                &&& run == (Run::AddDownloaded { lenient, cache_dir, position })
                &&& action == Action::Call(
                    PlayerCall::AddDownloaded { path, cache_dir, position },
                )
            },
            (Run::Download { .. }, _) => run is Over && action == Action::Finish,
            (Run::AddDownloaded { lenient, cache_dir, position }, _) => {
                &&& run == (Run::Download { lenient, cache_dir, position })
                &&& action == Action::NextDownload(AddOutcome::Added)
            },
            (Run::OneSong { path }, Reply::Song(song)) => match song {
                Some(song) => run is Last && action == Action::PrintSong(song),
                None => {
                    &&& run is Over
                    &&& action matches Action::PrintLineAndExit(line)
                    &&& line@ == not_found_line(path@)
                },
            },
            (Run::Songs { path, rest, found }, Reply::Song(song)) => match song {
                Some(song) => if rest@.len() == 0 {
                    &&& run is Last
                    &&& action matches Action::PrintSongs(songs)
                    &&& songs@ == found@.push(song)
                } else {
                    &&& action == Action::Call(
                        PlayerCall::FindOne { filter: file_filter(rest@[0]) },
                    )
                    &&& run matches Run::Songs { path: path2, rest: rest2, found: found2 }
                    &&& path2 == rest@[0]
                    &&& rest2@ == rest@.skip(1)
                    &&& found2@ == found@.push(song)
                },
                None => {
                    &&& run is Over
                    &&& action matches Action::PrintLineAndExit(line)
                    &&& line@ == not_found_line(path@)
                },
            },
            (Run::CurrentSong, Reply::Song(song)) => match song {
                Some(song) => run is Last && action == Action::PrintSong(song),
                None => run is Over && action == Action::Exit(1),
            },
            (Run::ArtSong { output }, Reply::Song(song)) => match song {
                Some(song) => run == (Run::Art { output }) && action == Action::Call(
                    PlayerCall::AlbumArt { file: song.file, order: AlbumArtOrder::EmbeddedFirst },
                ),
                None => run is Over && action == Action::Exit(3),
            },
            (Run::Art { output }, Reply::Art(art)) => match art {
                Some(data) => {
                    &&& run is Last
                    &&& action == Action::WriteArt {
                        target: if output@ == seq!['-'] {
                            ArtTarget::Stdout
                        } else {
                            ArtTarget::File(output)
                        },
                        data,
                    }
                },
                None => run is Over && action == Action::Exit(2),
            },
            (Run::StickerGet, Reply::Sticker { found }) => if found {
                run is Last && action == Action::PrintReply
            } else {
                run is Over && action == Action::Exit(1)
            },
            _ => false,
        }
    }

    /// One step of a run: from the answer to the last action to the next action.
    pub open spec fn steps(self, reply: Reply, run: Run, action: Action) -> bool {
        if reply is Failed {
            match self {
                Run::AddDownloaded { lenient, cache_dir, position } => {
                    &&& run == (Run::Download { lenient, cache_dir, position })
                    &&& action == Action::NextDownload(
                        if lenient {
                            AddOutcome::Reported
                        } else {
                            AddOutcome::Refused
                        },
                    )
                },
                _ => run is Over && action == Action::Abort(RunError::ActionFailed),
            }
        } else {
            self.continues(reply, run, action)
        }
    }
}

/// Single mode knows `Oneshot` from this version on.
pub open spec fn single_oneshot_since() -> Version {
    Version { major: 0, minor: 21, patch: 0 }
}

/// Consume mode knows `Oneshot` from this version on.
pub open spec fn consume_oneshot_since() -> Version {
    Version { major: 0, minor: 24, patch: 0 }
}

/// The songs in the order in which they are added.
pub fn in_insertion_order(items: Vec<String>, position: Option<QueuePosition>) -> (r: Vec<String>)
    ensures
        r@ == insertion_order(items@, position),
{
    let reversed = match position {
        Some(QueuePosition::Absolute(_)) => true,
        Some(QueuePosition::RelativeAdd(_)) => true,
        _ => false,
    };
    if !reversed {
        return items;
    }
    let mut r: Vec<String> = Vec::new();
    let mut i: usize = items.len();
    while i > 0
        invariant
            i <= items.len(),
            r@ == items@.reverse().take(items.len() - i),
        decreases i,
    {
        i = i - 1;
        r.push(items[i].clone());
        assert(r@ == items@.reverse().take(items.len() - i));
    }
    r
}

/// Whether a file can be played: its extension is among `suffixes`, or it is
/// the root directory.
pub fn is_supported(file: &String, suffixes: &Vec<String>) -> (r: bool)
    ensures
        r == supported(file@, text::views(suffixes@)),
{
    if file.as_str().unicode_len() == 1 && file.as_str().get_char(0) == '/' {
        assert(file@ == seq!['/']);
        return true;
    }
    assert(file@ != seq!['/']) by {
        assert(seq!['/'].len() == 1 && seq!['/'][0] == '/');
    }
    let ghost all = text::views(suffixes@);
    match path::extension(file.as_str()) {
        None => false,
        Some(ext) => {
            let mut i: usize = 0;
            while i < suffixes.len()
                invariant
                    i <= suffixes.len(),
                    all == text::views(suffixes@),
                    path::extension_of(file@) == Some(ext@),
                    forall|j: int| 0 <= j < i ==> all[j] != ext@,
                decreases suffixes.len() - i,
            {
                assert(all[i as int] == suffixes@[i as int]@);
                if suffixes[i] == ext {
                    assert(all.contains(ext@));
                    return true;
                }
                i = i + 1;
            }
            assert(!all.contains(ext@));
            false
        },
    }
}

fn collect_suffixes(decoders: &Vec<Decoder>) -> (r: Vec<String>)
    ensures
        text::views(r@) == all_suffixes(decoders@),
{
    let mut r: Vec<String> = Vec::new();
    let mut i: usize = 0;
    assert(text::views(r@) == all_suffixes(decoders@.take(0)));
    while i < decoders.len()
        invariant
            i <= decoders.len(),
            text::views(r@) == all_suffixes(decoders@.take(i as int)),
        decreases decoders.len() - i,
    {
        let ghost before = r@;
        let mut more = crate::mpd::types::clone_strings(&decoders[i].suffixes);
        let ghost added = more@;
        r.append(&mut more);
        assert(r@ == before + added);
        assert(text::views(r@) == text::views(before) + text::views(added));
        assert(decoders@.take(i + 1).drop_last() == decoders@.take(i as int));
        i = i + 1;
    }
    assert(decoders@.take(i as int) == decoders@);
    r
}

fn keep_supported(files: &Vec<String>, suffixes: &Vec<String>) -> (r: Vec<String>)
    ensures
        r@ == supported_files(files@, text::views(suffixes@)),
{
    let mut r: Vec<String> = Vec::new();
    let mut i: usize = 0;
    while i < files.len()
        invariant
            i <= files.len(),
            r@ == supported_files(files@.take(i as int), text::views(suffixes@)),
        decreases files.len() - i,
    {
        assert(files@.take(i + 1).drop_last() == files@.take(i as int));
        if is_supported(&files[i], suffixes) {
            r.push(files[i].clone());
        }
        i = i + 1;
    }
    assert(files@.take(i as int) == files@);
    r
}

/// The calls that add `files`, which lie below `dir` or elsewhere, in the given order.
fn add_calls(files: &Vec<String>, dir: &String, position: Option<QueuePosition>) -> (r: Vec<
    PlayerCall,
>)
    ensures
        adds(r@, song_uris(files@, dir@), position),
{
    let mut r: Vec<PlayerCall> = Vec::new();
    let mut i: usize = 0;
    while i < files.len()
        invariant
            i <= files.len(),
            adds(r@, song_uris(files@, dir@).take(i as int), position),
        decreases files.len() - i,
    {
        let file = files[i].as_str();
        let uri = if path::starts_with_path(file, dir.as_str()) {
            path::strip_dir(file, dir.as_str())
        } else {
            files[i].clone()
        };
        assert(uri@ == song_uris(files@, dir@)[i as int]);
        r.push(PlayerCall::Add { uri, position });
        i = i + 1;
    }
    assert(song_uris(files@, dir@).take(i as int) == song_uris(files@, dir@));
    r
}

/// The first step of a run that makes `calls` one after the other.
pub fn begin_calls(calls: Vec<PlayerCall>) -> (r: (Run, Action))
    ensures
        begins(calls@, r.0, r.1),
{
    let mut rest = calls;
    if rest.len() == 0 {
        return (Run::Over, Action::Finish);
    }
    let first = rest.remove(0);
    assert(rest@ == calls@.skip(1));
    (Run::Calls { rest }, Action::Call(first))
}

/// Adding `files`: the calls in the order in which they have to be made.
fn begin_adding(files: Vec<String>, dir: &String, position: Option<QueuePosition>) -> (r: (
    Run,
    Action,
))
    ensures
        begins_adding(song_uris(insertion_order(files@, position), dir@), position, r.0, r.1),
{
    let ordered = in_insertion_order(files, position);
    let calls = add_calls(&ordered, dir, position);
    let r = begin_calls(calls);
    proof {
        let uris = song_uris(insertion_order(files@, position), dir@);
        if calls@.len() > 0 {
            assert(is_add(calls@[0], uris[0], position));
            assert forall|i: int| 0 <= i < calls@.len() - 1 implies is_add(
                #[trigger] calls@.skip(1)[i],
                uris.skip(1)[i],
                position,
            ) by {
                assert(is_add(calls@[i + 1], uris[i + 1], position));
            }
        }
    }
    r
}

fn not_found(path: &String) -> (r: String)
    ensures
        r@ == not_found_line(path@),
{
    let mut line = String::from_str("Song with path '");
    line.append(path.as_str());
    line.append("' not found.");
    line
}

impl Run {
    /// Whether `reply` can be the answer to the action that this run waits for.
    pub fn can_take(&self, reply: &Reply) -> (r: bool)
        ensures
            r == self.accepts(*reply),
    {
        match (self, reply) {
            (Run::Over, _) => false,
            (Run::ToggleSingleVersion { .. }, Reply::Version(_)) => true,
            (Run::ToggleSingleVersion { .. }, _) => false,
            (Run::ToggleConsumeVersion { .. }, Reply::Version(_)) => true,
            (Run::ToggleConsumeVersion { .. }, _) => false,
            (Run::AddConfig { .. }, Reply::MusicDirectory(_)) => true,
            (Run::AddConfig { .. }, _) => false,
            (_, Reply::Failed) => true,
            (Run::Last, Reply::Done) => true,
            (Run::Calls { .. }, Reply::Done) => true,
            (Run::WaitEvent { .. }, Reply::Done) => true,
            (Run::AddDownloaded { .. }, Reply::Done) => true,
            (Run::Show, Reply::Value) => true,
            (Run::ShowVolume, Reply::Status(_)) => true,
            (Run::WaitStatus { .. }, Reply::Status(_)) => true,
            (Run::TogglePause, Reply::Status(_)) => true,
            (Run::Next { .. }, Reply::Status(_)) => true,
            (Run::Prev { .. }, Reply::Status(_)) => true,
            (Run::ToggleRepeat, Reply::Status(_)) => true,
            (Run::ToggleRandom, Reply::Status(_)) => true,
            (Run::ToggleSingle { .. }, Reply::Status(_)) => true,
            (Run::ToggleConsume { .. }, Reply::Status(_)) => true,
            (Run::UpdateJob { .. }, Reply::Update(_)) => true,
            (Run::ListAll { .. }, Reply::Files(_)) => true,
            (Run::Seek, Reply::ValueChange(_)) => true,
            (Run::AddDecoders { .. }, Reply::Decoders(_)) => true,
            (Run::Download { .. }, Reply::Downloaded(_)) => true,
            (Run::Download { .. }, Reply::DownloadOver) => true,
            (Run::OneSong { .. }, Reply::Song(_)) => true,
            (Run::Songs { .. }, Reply::Song(_)) => true,
            (Run::CurrentSong, Reply::Song(_)) => true,
            (Run::ArtSong { .. }, Reply::Song(_)) => true,
            (Run::Art { .. }, Reply::Art(_)) => true,
            (Run::StickerGet, Reply::Sticker { .. }) => true,
            _ => false,
        }
    }

    /// Takes the answer to the last action and gives the next action.
    pub fn resume(self, reply: Reply) -> (r: (Run, Action))
        requires
            self.accepts(reply),
        ensures
            self.steps(reply, r.0, r.1),
    {
        match (self, reply) {
            (Run::AddDownloaded { lenient, cache_dir, position }, Reply::Failed) => (
                Run::Download { lenient, cache_dir, position },
                Action::NextDownload(
                    if lenient {
                        AddOutcome::Reported
                    } else {
                        AddOutcome::Refused
                    },
                ),
            ),
            (_, Reply::Failed) => (Run::Over, Action::Abort(RunError::ActionFailed)),
            (Run::Show, _) => (Run::Last, Action::PrintReply),
            (Run::ShowVolume, Reply::Status(s)) => {
                let mut lines: Vec<String> = Vec::new();
                lines.push(text::to_decimal(s.volume as u64));
                (Run::Last, Action::PrintLines(lines))
            },
            (Run::Calls { rest }, _) => begin_calls(rest),
            (Run::UpdateJob { wait }, Reply::Update(u)) => if wait {
                (Run::WaitEvent { job_id: u.job_id }, Action::Call(PlayerCall::WaitForEvent))
            } else {
                (Run::Over, Action::Finish)
            },
            (Run::WaitEvent { job_id }, _) => (
                Run::WaitStatus { job_id },
                Action::Call(PlayerCall::GetStatus),
            ),
            (Run::WaitStatus { job_id }, Reply::Status(s)) => match s.updating_db {
                Some(current) => if current > job_id {
                    (Run::Over, Action::Finish)
                } else {
                    (Run::WaitEvent { job_id }, Action::Call(PlayerCall::WaitForEvent))
                },
                None => (Run::Over, Action::Finish),
            },
            (Run::ListAll { rest, found }, Reply::Files(files)) => {
                let mut rest2 = rest;
                let mut found2 = found;
                let mut more = files;
                found2.append(&mut more);
                if rest2.len() == 0 {
                    (Run::Last, Action::PrintLines(found2))
                } else {
                    let path = rest2.remove(0);
                    assert(rest2@ == rest@.skip(1));
                    (
                        Run::ListAll { rest: rest2, found: found2 },
                        Action::Call(PlayerCall::ListAll { path: Some(path) }),
                    )
                }
            },
            (Run::TogglePause, Reply::Status(s)) => {
                let call = match s.state {
                    State::Play => PlayerCall::PauseToggle,
                    State::Pause => PlayerCall::PauseToggle,
                    State::Stop => PlayerCall::Play { pos: None },
                };
                (Run::Last, Action::Call(call))
            },
            (Run::Next { keep_state }, Reply::Status(s)) => (
                Run::Last,
                Action::Call(PlayerCall::NextKeepState { keep: keep_state, state: s.state }),
            ),
            (Run::Prev { rewind_to_start, keep_state }, Reply::Status(s)) => {
                let rewind = match rewind_to_start {
                    Some(secs) => s.elapsed_ms / 1000 >= secs,
                    None => false,
                };
                let call = if rewind {
                    PlayerCall::SeekCurrent { value: ValueChange::SetTo(0) }
                } else {
                    PlayerCall::PrevKeepState { keep: keep_state, state: s.state }
                };
                (Run::Last, Action::Call(call))
            },
            (Run::ToggleRepeat, Reply::Status(s)) => (
                Run::Last,
                Action::Call(PlayerCall::SetRepeat { enabled: !s.repeat }),
            ),
            (Run::ToggleRandom, Reply::Status(s)) => (
                Run::Last,
                Action::Call(PlayerCall::SetRandom { enabled: !s.random }),
            ),
            (Run::ToggleSingle { skip_oneshot }, Reply::Status(s)) => if skip_oneshot {
                (
                    Run::Last,
                    Action::Call(PlayerCall::CycleSingle { from: s.single, skip_oneshot: true }),
                )
            } else {
                (
                    Run::ToggleSingleVersion { from: s.single },
                    Action::Call(PlayerCall::GetVersion),
                )
            },
            (Run::ToggleSingleVersion { from }, Reply::Version(v)) => {
                let skip_oneshot = v.is_before(&Version::new(0, 21, 0));
                (Run::Last, Action::Call(PlayerCall::CycleSingle { from, skip_oneshot }))
            },
            (Run::ToggleConsume { skip_oneshot }, Reply::Status(s)) => if skip_oneshot {
                (
                    Run::Last,
                    Action::Call(PlayerCall::CycleConsume { from: s.consume, skip_oneshot: true }),
                )
            } else {
                (
                    Run::ToggleConsumeVersion { from: s.consume },
                    Action::Call(PlayerCall::GetVersion),
                )
            },
            (Run::ToggleConsumeVersion { from }, Reply::Version(v)) => {
                let skip_oneshot = v.is_before(&Version::new(0, 24, 0));
                (Run::Last, Action::Call(PlayerCall::CycleConsume { from, skip_oneshot }))
            },
            (Run::Seek, Reply::ValueChange(value)) => (
                Run::Last,
                Action::Call(PlayerCall::SeekCurrent { value }),
            ),
            (Run::AddConfig { files, skip_ext_check, position }, Reply::MusicDirectory(dir)) => match dir {
                None => (Run::Over, Action::ReportAndFinish(String::from_str(NO_SOCKET))),
                Some(dir) => if skip_ext_check {
                    begin_adding(files, &dir, position)
                } else {
                    (
                        Run::AddDecoders { files, dir, position },
                        Action::Call(PlayerCall::Decoders),
                    )
                },
            },
            (Run::AddDecoders { files, dir, position }, Reply::Decoders(decoders)) => {
                let suffixes = collect_suffixes(&decoders);
                let kept = keep_supported(&files, &suffixes);
                begin_adding(kept, &dir, position)
            },
            (Run::Download { lenient, cache_dir, position }, Reply::Downloaded(path)) => {
                let for_call = clone_optional(&cache_dir);
                (
                    Run::AddDownloaded { lenient, cache_dir, position },
                    Action::Call(
                        PlayerCall::AddDownloaded { path, cache_dir: for_call, position },
                    ),
                )
            },
            (Run::AddDownloaded { lenient, cache_dir, position }, _) => (
                Run::Download { lenient, cache_dir, position },
                Action::NextDownload(AddOutcome::Added),
            ),
            (Run::OneSong { path }, Reply::Song(song)) => match song {
                Some(song) => (Run::Last, Action::PrintSong(song)),
                None => (Run::Over, Action::PrintLineAndExit(not_found(&path))),
            },
            (Run::Songs { path, rest, found }, Reply::Song(song)) => match song {
                Some(song) => {
                    let mut rest2 = rest;
                    let mut found2 = found;
                    found2.push(song);
                    if rest2.len() == 0 {
                        (Run::Last, Action::PrintSongs(found2))
                    } else {
                        let next = rest2.remove(0);
                        assert(rest2@ == rest@.skip(1));
                        (
                            Run::Songs { path: next.clone(), rest: rest2, found: found2 },
                            Action::Call(PlayerCall::FindOne { filter: filter_for_file(next) }),
                        )
                    }
                },
                None => (Run::Over, Action::PrintLineAndExit(not_found(&path))),
            },
            (Run::CurrentSong, Reply::Song(song)) => match song {
                Some(song) => (Run::Last, Action::PrintSong(song)),
                None => (Run::Over, Action::Exit(1)),
            },
            (Run::ArtSong { output }, Reply::Song(song)) => match song {
                Some(song) => (
                    Run::Art { output },
                    Action::Call(
                        PlayerCall::AlbumArt {
                            file: song.file,
                            order: AlbumArtOrder::EmbeddedFirst,
                        },
                    ),
                ),
                None => (Run::Over, Action::Exit(3)),
            },
            (Run::Art { output }, Reply::Art(art)) => match art {
                Some(data) => {
                    let to_stdout = output.as_str().unicode_len() == 1
                        && output.as_str().get_char(0) == '-';
                    assert(to_stdout == (output@ == seq!['-'])) by {
                        assert(seq!['-'].len() == 1 && seq!['-'][0] == '-');
                        if to_stdout {
                            assert(output@ == seq!['-']);
                        }
                    }
                    let target = if to_stdout {
                        ArtTarget::Stdout
                    } else {
                        ArtTarget::File(output)
                    };
                    (Run::Last, Action::WriteArt { target, data })
                },
                None => (Run::Over, Action::Exit(2)),
            },
            (Run::StickerGet, Reply::Sticker { found }) => if found {
                (Run::Last, Action::PrintReply)
            } else {
                (Run::Over, Action::Exit(1))
            },
            _ => (Run::Over, Action::Finish),
        }
    }
}

/// A copy of an optional string.
pub fn clone_optional(s: &Option<String>) -> (r: Option<String>)
    ensures
        r == *s,
{
    match s {
        Some(s) => Some(s.clone()),
        None => None,
    }
}

} // verus!
