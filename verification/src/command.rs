//! The commands of the command line, and how each of them starts.

use crate::mpd::types::{OnOffOneshot, QueuePosition, Tag, ValueChange};
use crate::path;
use crate::player::Enqueue;
use crate::run;
use crate::run::{begin_calls, clone_optional, filter_for_file, in_insertion_order};
use crate::run::{Action, PlayerCall, Run, RunError};
use crate::text;
use vstd::prelude::*;

verus! {

/// What the commands read of the configuration.
pub struct CliConfig {
    pub lyrics_dir: Option<String>,
    pub cache_dir: Option<String>,
}

/// What to pick at random.
#[derive(Clone, Copy, Debug, PartialEq, Eq, Structural)]
pub enum AddRandom {
    Song,
    Artist,
    Album,
    AlbumArtist,
    Genre,
}

/// A site to search, as the user names it.
#[derive(Clone, Copy, Debug, PartialEq, Eq, Structural)]
pub enum Provider {
    Youtube,
    Soundcloud,
    Nicovideo,
}

/// A site that the downloader knows.
#[derive(Clone, Copy, Debug, PartialEq, Eq, Structural)]
pub enum YtDlpHost {
    Youtube,
    Soundcloud,
    NicoVideo,
}

impl From<Provider> for YtDlpHost {
    fn from(p: Provider) -> (r: YtDlpHost) {
        match p {
            Provider::Youtube => YtDlpHost::Youtube,
            Provider::Soundcloud => YtDlpHost::Soundcloud,
            Provider::Nicovideo => YtDlpHost::NicoVideo,
        }
    }
}

impl vstd::std_specs::convert::FromSpecImpl<Provider> for YtDlpHost {
    open spec fn obeys_from_spec() -> bool {
        true
    }

    open spec fn from_spec(p: Provider) -> YtDlpHost {
        match p {
            Provider::Youtube => YtDlpHost::Youtube,
            Provider::Soundcloud => YtDlpHost::Soundcloud,
            Provider::Nicovideo => YtDlpHost::NicoVideo,
        }
    }
}

/// A command on stickers.
pub enum StickerCmd {
    Put { uri: String, key: String, value: String },
    Get { uri: String, key: String },
    Delete { uri: String, key: String },
    DeleteAll { uri: String },
    List { uri: String },
    Find { uri: String, key: String },
}

/// A command of the command line. Files are given by the text of their paths.
pub enum Command {
    Config,
    Theme,
    Version,
    DebugInfo,
    Raw,
    Remote,
    AddRandom { tag: AddRandom, count: usize },
    Update { path: Option<String>, wait: bool },
    Rescan { path: Option<String>, wait: bool },
    LyricsIndex,
    Queue,
    ListAll { files: Vec<String> },
    Play { position: Option<usize> },
    Pause,
    TogglePause,
    Unpause,
    Stop,
    Volume { value: Option<String> },
    Next { keep_state: bool },
    Prev { rewind_to_start: Option<u64>, keep_state: bool },
    Repeat { value: bool },
    Random { value: bool },
    Single { value: OnOffOneshot },
    Consume { value: OnOffOneshot },
    ToggleRepeat,
    ToggleRandom,
    ToggleSingle { skip_oneshot: bool },
    ToggleConsume { skip_oneshot: bool },
    Seek { value: String },
    Clear,
    Add { files: Vec<String>, skip_ext_check: bool, position: Option<QueuePosition> },
    AddYt { url: String, position: Option<QueuePosition> },
    SearchYt {
        query: String,
        provider: Provider,
        interactive: bool,
        limit: usize,
        position: Option<QueuePosition>,
    },
    Save { name: String },
    Load { names: Vec<String> },
    Decoders,
    Outputs,
    ToggleOutput { id: u32 },
    EnableOutput { id: u32 },
    DisableOutput { id: u32 },
    Status,
    Song { path: Option<Vec<String>> },
    Mount { name: String, path: String },
    Unmount { name: String },
    ListMounts,
    ListPartitions,
    AlbumArt { output: String },
    Sticker { cmd: StickerCmd },
    SendMessage { channel: String, content: String },
    SpotifyLogin,
}

/// Why a command cannot start.
#[derive(Debug)]
pub enum CommandError {
    Config,
    Theme,
    Version,
    DebugInfo,
    Raw,
    Remote,
    SpotifyLogin,
    NoResults { query: String },
}

impl CommandError {
    /// The text of the error.
    pub open spec fn text(self) -> Seq<char> {
        match self {
            CommandError::Config => "Cannot use config command here."@,
            CommandError::Theme => "Cannot use theme command here."@,
            CommandError::Version => "Cannot use version command here."@,
            CommandError::DebugInfo => "Cannot use debuginfo command here."@,
            CommandError::Raw => "Cannot use raw command here."@,
            CommandError::Remote => "Cannot use remote command here."@,
            CommandError::SpotifyLogin => "SpotifyLogin should be handled in main."@,
            CommandError::NoResults { query } => "No results found for query '"@ + query@ + "'"@,
        }
    }

    /// The text of the error.
    pub fn message(&self) -> (r: String)
        ensures
            r@ == self.text(),
    {
        match self {
            CommandError::Config => String::from_str("Cannot use config command here."),
            CommandError::Theme => String::from_str("Cannot use theme command here."),
            CommandError::Version => String::from_str("Cannot use version command here."),
            CommandError::DebugInfo => String::from_str("Cannot use debuginfo command here."),
            CommandError::Raw => String::from_str("Cannot use raw command here."),
            CommandError::Remote => String::from_str("Cannot use remote command here."),
            CommandError::SpotifyLogin => String::from_str(
                "SpotifyLogin should be handled in main.",
            ),
            CommandError::NoResults { query } => {
                let mut s = String::from_str("No results found for query '");
                s.append(query.as_str());
                s.append("'");
                s
            },
        }
    }
}

/// A search that has to be made before the command can start.
pub struct Search {
    pub host: YtDlpHost,
    /// What to search for.
    pub query: String,
    /// How many results to ask for.
    pub limit: usize,
    /// Whether the user picks the result.
    pub interactive: bool,
    /// The query as it was given.
    pub given: String,
    pub cache_dir: Option<String>,
    pub position: Option<QueuePosition>,
}

impl Search {
    /// What comes of the results of the search.
    pub open spec fn picks(
        self,
        urls: Seq<String>,
        r: Result<(Run, Action), CommandError>,
    ) -> bool {
        match r {
            Ok((run, action)) => {
                &&& urls.len() > 0
                &&& run == Run::Download {
                    lenient: false,
                    cache_dir: self.cache_dir,
                    position: self.position,
                }
                &&& action == Action::Download { url: urls[0] }
            },
            Err(e) => urls.len() == 0 && e == (CommandError::NoResults { query: self.given }),
        }
    }

    /// Starts to download the first of the results, which an interactive
    /// search reduces to the one that the user picked.
    pub fn pick(self, urls: Vec<String>) -> (r: Result<(Run, Action), CommandError>)
        ensures
            self.picks(urls@, r),
            match r {
                Ok((run, action)) => {
                    &&& urls@.len() > 0
                    &&& run == Run::Download {
                        lenient: false,
                        cache_dir: self.cache_dir,
                        position: self.position,
                    }
                    &&& action == Action::Download { url: urls@[0] }
                },
                Err(e) => urls@.len() == 0 && e == (CommandError::NoResults { query: self.given }),
            },
    {
        let mut urls = urls;
        if urls.len() == 0 {
            return Err(CommandError::NoResults { query: self.given });
        }
        let url = urls.remove(0);
        Ok(
            (
                Run::Download {
                    lenient: false,
                    cache_dir: self.cache_dir,
                    position: self.position,
                },
                Action::Download { url },
            ),
        )
    }
}

/// How a command goes on.
pub enum Plan {
    Start { run: Run, action: Action },
    Search(Search),
}

impl Plan {
    /// The command is this one call.
    pub open spec fn is_call(self, call: PlayerCall) -> bool {
        self == (Plan::Start { run: Run::Last, action: Action::Call(call) })
    }

    /// The command is this one call, and the answer is printed.
    pub open spec fn is_show(self, call: PlayerCall) -> bool {
        self == (Plan::Start { run: Run::Show, action: Action::Call(call) })
    }

    /// The command starts with this call.
    pub open spec fn calls_first(self, call: PlayerCall, run: Run) -> bool {
        self == (Plan::Start { run, action: Action::Call(call) })
    }
}

/// The calls that load playlists.
pub open spec fn load_calls(names: Seq<String>) -> Seq<PlayerCall> {
    names.map_values(|n: String| run::playlist_call(n))
}

impl Command {
    /// The error of a command that has no place here.
    pub open spec fn refusal(self) -> Option<CommandError> {
        match self {
            Command::Config => Some(CommandError::Config),
            Command::Theme => Some(CommandError::Theme),
            Command::Version => Some(CommandError::Version),
            Command::DebugInfo => Some(CommandError::DebugInfo),
            Command::Raw => Some(CommandError::Raw),
            Command::Remote => Some(CommandError::Remote),
            Command::SpotifyLogin => Some(CommandError::SpotifyLogin),
            _ => None,
        }
    }

    /// How a command that is not refused starts.
    pub open spec fn plans(self, config: CliConfig, plan: Plan) -> bool {
        match self {
            Command::AddRandom { tag, count } => plan.is_call(
                match tag {
                    AddRandom::Song => PlayerCall::AddRandomSongs { count, filter: None },
                    AddRandom::Artist => PlayerCall::AddRandomTag { count, tag: Tag::Artist },
                    AddRandom::Album => PlayerCall::AddRandomTag { count, tag: Tag::Album },
                    AddRandom::AlbumArtist => PlayerCall::AddRandomTag {
                        count,
                        tag: Tag::AlbumArtist,
                    },
                    AddRandom::Genre => PlayerCall::AddRandomTag { count, tag: Tag::Genre },
                },
            ),
            Command::Update { path, wait } => plan.calls_first(
                PlayerCall::Update { path },
                Run::UpdateJob { wait },
            ),
            Command::Rescan { path, wait } => plan.calls_first(
                PlayerCall::Rescan { path },
                Run::UpdateJob { wait },
            ),
            Command::LyricsIndex => match config.lyrics_dir {
                Some(dir) => plan == (Plan::Start {
                    run: Run::Last,
                    action: Action::IndexLyrics { dir },
                }),
                None => plan == (Plan::Start {
                    run: Run::Over,
                    action: Action::Abort(RunError::LyricsDirNotConfigured),
                }),
            },
            Command::Queue => plan.is_show(PlayerCall::GetQueue),
            Command::ListAll { files } => {
                &&& plan matches Plan::Start { run, action }
                &&& run matches Run::ListAll { rest, found }
                &&& found@.len() == 0
                &&& if files@.len() == 0 {
                    rest@.len() == 0 && action == Action::Call(PlayerCall::ListAll { path: None })
                } else {
                    rest@ == files@.skip(1) && action == Action::Call(
                        PlayerCall::ListAll { path: Some(files@[0]) },
                    )
                }
            },
            Command::Play { position } => plan.is_call(
                match position {
                    None => PlayerCall::Play { pos: None },
                    Some(pos) => PlayerCall::PlayPos { pos },
                },
            ),
            Command::Pause => plan.is_call(PlayerCall::Pause),
            Command::TogglePause => plan.calls_first(PlayerCall::GetStatus, Run::TogglePause),
            Command::Unpause => plan.is_call(PlayerCall::Unpause),
            Command::Stop => plan.is_call(PlayerCall::Stop),
            Command::Volume { value } => match value {
                Some(text) => match text::u32_value(text@) {
                    Some(v) => plan.is_call(PlayerCall::Volume { value: ValueChange::SetTo(v) }),
                    None => plan == (Plan::Start {
                        run: Run::Over,
                        action: Action::Abort(RunError::InvalidNumber),
                    }),
                },
                None => plan.calls_first(PlayerCall::GetStatus, Run::ShowVolume),
            },
            Command::Next { keep_state } => plan.calls_first(
                PlayerCall::GetStatus,
                Run::Next { keep_state },
            ),
            Command::Prev { rewind_to_start, keep_state } => plan.calls_first(
                PlayerCall::GetStatus,
                Run::Prev { rewind_to_start, keep_state },
            ),
            Command::Repeat { value } => plan.is_call(PlayerCall::SetRepeat { enabled: value }),
            Command::Random { value } => plan.is_call(PlayerCall::SetRandom { enabled: value }),
            Command::Single { value } => plan.is_call(PlayerCall::SetSingle { single: value }),
            Command::Consume { value } => plan.is_call(PlayerCall::SetConsume { consume: value }),
            Command::ToggleRepeat => plan.calls_first(PlayerCall::GetStatus, Run::ToggleRepeat),
            Command::ToggleRandom => plan.calls_first(PlayerCall::GetStatus, Run::ToggleRandom),
            Command::ToggleSingle { skip_oneshot } => plan.calls_first(
                PlayerCall::GetStatus,
                Run::ToggleSingle { skip_oneshot },
            ),
            Command::ToggleConsume { skip_oneshot } => plan.calls_first(
                PlayerCall::GetStatus,
                Run::ToggleConsume { skip_oneshot },
            ),
            Command::Seek { value } => plan == (Plan::Start {
                run: Run::Seek,
                action: Action::ParseValueChange(value),
            }),
            Command::Clear => plan.is_call(PlayerCall::ClearQueue),
            Command::Add { files, skip_ext_check, position } => if any_absolute(files@) {
                plan.calls_first(
                    PlayerCall::GetConfig,
                    Run::AddConfig { files, skip_ext_check, position },
                )
            } else {
                &&& plan matches Plan::Start { run, action }
                &&& crate::run::begins_adding(
                    text::views(crate::run::insertion_order(files@, position)),
                    position,
                    run,
                    action,
                )
            },
            Command::AddYt { url, position } => plan == (Plan::Start {
                run: Run::Download { lenient: true, cache_dir: config.cache_dir, position },
                action: Action::Download { url },
            }),
            Command::SearchYt { query, provider, interactive, limit, position } => {
                &&& plan matches Plan::Search(search)
                &&& search.host == <YtDlpHost as vstd::std_specs::convert::FromSpec<
                    Provider,
                >>::from_spec(provider)
                &&& search.query@ == text::trimmed(query@)
                &&& search.limit == if interactive {
                    limit
                } else {
                    1
                }
                &&& search.interactive == interactive
                &&& search.given == query
                &&& search.cache_dir == config.cache_dir
                &&& search.position == position
            },
            Command::Save { name } => plan.is_call(PlayerCall::SaveQueue { name, mode: None }),
            Command::Load { names } => {
                &&& plan matches Plan::Start { run, action }
                &&& crate::run::begins(load_calls(names@), run, action)
            },
            Command::Decoders => plan.is_show(PlayerCall::Decoders),
            Command::Outputs => plan.is_show(PlayerCall::Outputs),
            Command::ToggleOutput { id } => plan.is_call(PlayerCall::ToggleOutput { id }),
            Command::EnableOutput { id } => plan.is_call(PlayerCall::EnableOutput { id }),
            Command::DisableOutput { id } => plan.is_call(PlayerCall::DisableOutput { id }),
            Command::Status => plan.is_show(PlayerCall::GetStatus),
            Command::Song { path } => match path {
                None => plan.calls_first(PlayerCall::CurrentSong, Run::CurrentSong),
                Some(paths) => if paths@.len() == 1 {
                    plan.calls_first(
                        PlayerCall::FindOne { filter: run::file_filter(paths@[0]) },
                        Run::OneSong { path: paths@[0] },
                    )
                } else if paths@.len() == 0 {
                    &&& plan matches Plan::Start { run, action }
                    &&& run is Last
                    &&& action matches Action::PrintSongs(songs)
                    &&& songs@.len() == 0
                } else {
                    &&& plan matches Plan::Start { run, action }
                    &&& action == Action::Call(
                        PlayerCall::FindOne { filter: run::file_filter(paths@[0]) },
                    )
                    &&& run matches Run::Songs { path, rest, found }
                    &&& path == paths@[0]
                    &&& rest@ == paths@.skip(1)
                    &&& found@.len() == 0
                },
            },
            Command::Mount { name, path } => plan.is_call(PlayerCall::Mount { name, path }),
            Command::Unmount { name } => plan.is_call(PlayerCall::Unmount { name }),
            Command::ListMounts => plan.is_show(PlayerCall::ListMounts),
            Command::ListPartitions => plan.is_show(PlayerCall::ListPartitions),
            Command::AlbumArt { output } => plan.calls_first(
                PlayerCall::CurrentSong,
                Run::ArtSong { output },
            ),
            Command::Sticker { cmd } => match cmd {
                StickerCmd::Put { uri, key, value } => plan.is_call(
                    PlayerCall::SetSticker { uri, key, value },
                ),
                StickerCmd::Get { uri, key } => plan.calls_first(
                    PlayerCall::Sticker { uri, key },
                    Run::StickerGet,
                ),
                StickerCmd::Delete { uri, key } => plan.is_call(
                    PlayerCall::DeleteSticker { uri, key },
                ),
                StickerCmd::DeleteAll { uri } => plan.is_call(
                    PlayerCall::DeleteAllStickers { uri },
                ),
                StickerCmd::List { uri } => plan.is_show(PlayerCall::ListStickers { uri }),
                StickerCmd::Find { uri, key } => plan.is_show(
                    PlayerCall::FindStickers { uri, key, filter: None },
                ),
            },
            Command::SendMessage { channel, content } => plan.is_call(
                PlayerCall::SendMessage { channel, content },
            ),
            _ => false,
        }
    }

    /// Starts a command.
    pub fn execute(self, config: &CliConfig) -> (r: Result<Plan, CommandError>)
        ensures
            match r {
                Ok(plan) => self.refusal() is None && self.plans(*config, plan),
                Err(e) => self.refusal() == Some(e),
            },
    {
        match self {
            Command::Config => Err(CommandError::Config),
            Command::Theme => Err(CommandError::Theme),
            Command::Version => Err(CommandError::Version),
            Command::DebugInfo => Err(CommandError::DebugInfo),
            Command::Raw => Err(CommandError::Raw),
            Command::Remote => Err(CommandError::Remote),
            Command::SpotifyLogin => Err(CommandError::SpotifyLogin),
            Command::AddRandom { tag, count } => {
                let c = match tag {
                    AddRandom::Song => PlayerCall::AddRandomSongs { count, filter: None },
                    AddRandom::Artist => PlayerCall::AddRandomTag { count, tag: Tag::Artist },
                    AddRandom::Album => PlayerCall::AddRandomTag { count, tag: Tag::Album },
                    AddRandom::AlbumArtist => PlayerCall::AddRandomTag {
                        count,
                        tag: Tag::AlbumArtist,
                    },
                    AddRandom::Genre => PlayerCall::AddRandomTag { count, tag: Tag::Genre },
                };
                Ok(call(c))
            },
            Command::Update { path, wait } => Ok(
                first(PlayerCall::Update { path }, Run::UpdateJob { wait }),
            ),
            Command::Rescan { path, wait } => Ok(
                first(PlayerCall::Rescan { path }, Run::UpdateJob { wait }),
            ),
            Command::LyricsIndex => match clone_optional(&config.lyrics_dir) {
                Some(dir) => Ok(
                    Plan::Start { run: Run::Last, action: Action::IndexLyrics { dir } },
                ),
                None => Ok(
                    Plan::Start {
                        run: Run::Over,
                        action: Action::Abort(RunError::LyricsDirNotConfigured),
                    },
                ),
            },
            Command::Queue => Ok(show(PlayerCall::GetQueue)),
            Command::ListAll { files } => Ok(list_all(files)),
            Command::Play { position } => match position {
                None => Ok(call(PlayerCall::Play { pos: None })),
                Some(pos) => Ok(call(PlayerCall::PlayPos { pos })),
            },
            Command::Pause => Ok(call(PlayerCall::Pause)),
            Command::TogglePause => Ok(first(PlayerCall::GetStatus, Run::TogglePause)),
            Command::Unpause => Ok(call(PlayerCall::Unpause)),
            Command::Stop => Ok(call(PlayerCall::Stop)),
            Command::Volume { value } => match value {
                Some(value) => match text::parse_u32(value.as_str()) {
                    Some(v) => Ok(call(PlayerCall::Volume { value: ValueChange::SetTo(v) })),
                    None => Ok(
                        Plan::Start {
                            run: Run::Over,
                            action: Action::Abort(RunError::InvalidNumber),
                        },
                    ),
                },
                None => Ok(first(PlayerCall::GetStatus, Run::ShowVolume)),
            },
            Command::Next { keep_state } => Ok(
                first(PlayerCall::GetStatus, Run::Next { keep_state }),
            ),
            Command::Prev { rewind_to_start, keep_state } => Ok(
                first(PlayerCall::GetStatus, Run::Prev { rewind_to_start, keep_state }),
            ),
            Command::Repeat { value } => Ok(call(PlayerCall::SetRepeat { enabled: value })),
            Command::Random { value } => Ok(call(PlayerCall::SetRandom { enabled: value })),
            Command::Single { value } => Ok(call(PlayerCall::SetSingle { single: value })),
            Command::Consume { value } => Ok(call(PlayerCall::SetConsume { consume: value })),
            Command::ToggleRepeat => Ok(first(PlayerCall::GetStatus, Run::ToggleRepeat)),
            Command::ToggleRandom => Ok(first(PlayerCall::GetStatus, Run::ToggleRandom)),
            Command::ToggleSingle { skip_oneshot } => Ok(
                first(PlayerCall::GetStatus, Run::ToggleSingle { skip_oneshot }),
            ),
            Command::ToggleConsume { skip_oneshot } => Ok(
                first(PlayerCall::GetStatus, Run::ToggleConsume { skip_oneshot }),
            ),
            Command::Seek { value } => Ok(
                Plan::Start { run: Run::Seek, action: Action::ParseValueChange(value) },
            ),
            Command::Clear => Ok(call(PlayerCall::ClearQueue)),
            Command::Add { files, skip_ext_check, position } => if has_absolute(&files) {
                Ok(
                    first(
                        PlayerCall::GetConfig,
                        Run::AddConfig { files, skip_ext_check, position },
                    ),
                )
            } else {
                Ok(add_relative(files, position))
            },
            Command::AddYt { url, position } => Ok(
                Plan::Start {
                    run: Run::Download {
                        lenient: true,
                        cache_dir: clone_optional(&config.cache_dir),
                        position,
                    },
                    action: Action::Download { url },
                },
            ),
            Command::SearchYt { query, provider, interactive, limit, position } => Ok(
                Plan::Search(
                    Search {
                        host: YtDlpHost::from(provider),
                        query: text::trim(query.as_str()),
                        limit: if interactive {
                            limit
                        } else {
                            1
                        },
                        interactive,
                        given: query,
                        cache_dir: clone_optional(&config.cache_dir),
                        position,
                    },
                ),
            ),
            Command::Save { name } => Ok(call(PlayerCall::SaveQueue { name, mode: None })),
            Command::Load { names } => Ok(load(names)),
            Command::Decoders => Ok(show(PlayerCall::Decoders)),
            Command::Outputs => Ok(show(PlayerCall::Outputs)),
            Command::ToggleOutput { id } => Ok(call(PlayerCall::ToggleOutput { id })),
            Command::EnableOutput { id } => Ok(call(PlayerCall::EnableOutput { id })),
            Command::DisableOutput { id } => Ok(call(PlayerCall::DisableOutput { id })),
            Command::Status => Ok(show(PlayerCall::GetStatus)),
            Command::Song { path } => match path {
                None => Ok(first(PlayerCall::CurrentSong, Run::CurrentSong)),
                Some(paths) => Ok(songs(paths)),
            },
            Command::Mount { name, path } => Ok(call(PlayerCall::Mount { name, path })),
            Command::Unmount { name } => Ok(call(PlayerCall::Unmount { name })),
            Command::ListMounts => Ok(show(PlayerCall::ListMounts)),
            Command::ListPartitions => Ok(show(PlayerCall::ListPartitions)),
            Command::AlbumArt { output } => Ok(
                first(PlayerCall::CurrentSong, Run::ArtSong { output }),
            ),
            Command::Sticker { cmd } => match cmd {
                StickerCmd::Put { uri, key, value } => Ok(
                    call(PlayerCall::SetSticker { uri, key, value }),
                ),
                StickerCmd::Get { uri, key } => Ok(
                    first(PlayerCall::Sticker { uri, key }, Run::StickerGet),
                ),
                StickerCmd::Delete { uri, key } => Ok(
                    call(PlayerCall::DeleteSticker { uri, key }),
                ),
                StickerCmd::DeleteAll { uri } => Ok(call(PlayerCall::DeleteAllStickers { uri })),
                StickerCmd::List { uri } => Ok(show(PlayerCall::ListStickers { uri })),
                StickerCmd::Find { uri, key } => Ok(
                    show(PlayerCall::FindStickers { uri, key, filter: None }),
                ),
            },
            Command::SendMessage { channel, content } => Ok(
                call(PlayerCall::SendMessage { channel, content }),
            ),
        }
    }
}

fn call(c: PlayerCall) -> (r: Plan)
    ensures
        r.is_call(c),
{
    Plan::Start { run: Run::Last, action: Action::Call(c) }
}

fn show(c: PlayerCall) -> (r: Plan)
    ensures
        r.is_show(c),
{
    Plan::Start { run: Run::Show, action: Action::Call(c) }
}

fn first(c: PlayerCall, run: Run) -> (r: Plan)
    ensures
        r.calls_first(c, run),
{
    Plan::Start { run, action: Action::Call(c) }
}

/// Whether one of the files is given by an absolute path.
pub open spec fn any_absolute(files: Seq<String>) -> bool {
    exists|i: int| 0 <= i < files.len() && path::rooted((#[trigger] files[i])@)
}

fn has_absolute(files: &Vec<String>) -> (r: bool)
    ensures
        r == any_absolute(files@),
{
    let mut i: usize = 0;
    while i < files.len()
        invariant
            i <= files.len(),
            forall|j: int| 0 <= j < i ==> !path::rooted((#[trigger] files@[j])@),
        decreases files.len() - i,
    {
        if path::is_absolute(files[i].as_str()) {
            return true;
        }
        i = i + 1;
    }
    false
}

fn list_all(files: Vec<String>) -> (r: Plan)
    ensures
        (Command::ListAll { files }).plans(CliConfig { lyrics_dir: None, cache_dir: None }, r),
{
    let mut rest = files;
    let path = if rest.len() == 0 {
        None
    } else {
        Some(rest.remove(0))
    };
    assert(files@.len() > 0 ==> rest@ == files@.skip(1));
    Plan::Start {
        run: Run::ListAll { rest, found: Vec::new() },
        action: Action::Call(PlayerCall::ListAll { path }),
    }
}

fn songs(paths: Vec<String>) -> (r: Plan)
    ensures
        (Command::Song { path: Some(paths) }).plans(
            CliConfig { lyrics_dir: None, cache_dir: None },
            r,
        ),
{
    let mut rest = paths;
    if rest.len() == 0 {
        return Plan::Start { run: Run::Last, action: Action::PrintSongs(Vec::new()) };
    }
    let path = rest.remove(0);
    let again = path.clone();
    assert(rest@ == paths@.skip(1));
    if rest.len() == 0 {
        Plan::Start {
            run: Run::OneSong { path },
            action: Action::Call(PlayerCall::FindOne { filter: filter_for_file(again) }),
        }
    } else {
        Plan::Start {
            run: Run::Songs { path, rest, found: Vec::new() },
            action: Action::Call(PlayerCall::FindOne { filter: filter_for_file(again) }),
        }
    }
}

fn load(names: Vec<String>) -> (r: Plan)
    ensures
        (Command::Load { names }).plans(CliConfig { lyrics_dir: None, cache_dir: None }, r),
{
    let mut calls: Vec<PlayerCall> = Vec::new();
    let mut i: usize = 0;
    while i < names.len()
        invariant
            i <= names.len(),
            calls@ == load_calls(names@).take(i as int),
        decreases names.len() - i,
    {
        calls.push(
            PlayerCall::EnqueueOne {
                item: Enqueue::Playlist { name: names[i].clone() },
                autoplay_idx: None,
                position: None,
                replace: false,
            },
        );
        i = i + 1;
    }
    assert(load_calls(names@).take(i as int) == load_calls(names@));
    let (run, action) = begin_calls(calls);
    Plan::Start { run, action }
}

fn add_relative(files: Vec<String>, position: Option<QueuePosition>) -> (r: Plan)
    ensures
        r matches Plan::Start { run, action } && crate::run::begins_adding(
            text::views(crate::run::insertion_order(files@, position)),
            position,
            run,
            action,
        ),
{
    let ordered = in_insertion_order(files, position);
    let ghost uris = text::views(ordered@);
    let mut calls: Vec<PlayerCall> = Vec::new();
    let mut i: usize = 0;
    while i < ordered.len()
        invariant
            i <= ordered.len(),
            uris == text::views(ordered@),
            crate::run::adds(calls@, uris.take(i as int), position),
        decreases ordered.len() - i,
    {
        calls.push(PlayerCall::Add { uri: ordered[i].clone(), position });
        i = i + 1;
    }
    assert(uris.take(i as int) == uris);
    proof {
        if calls@.len() > 0 {
            assert(crate::run::is_add(calls@[0], uris[0], position));
            assert forall|j: int| 0 <= j < calls@.len() - 1 implies crate::run::is_add(
                #[trigger] calls@.skip(1)[j],
                uris.skip(1)[j],
                position,
            ) by {
                assert(crate::run::is_add(calls@[j + 1], uris[j + 1], position));
            }
        }
    }
    let (run, action) = begin_calls(calls);
    Plan::Start { run, action }
}

} // verus!
