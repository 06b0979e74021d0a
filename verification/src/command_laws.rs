//! What each command does to the player, whatever calls it makes.

use crate::command;
use crate::command::{
    AddRandom, CliConfig, Command, CommandError, Plan, Provider, Search, StickerCmd,
};
use crate::mpd::types::{
    AlbumArtOrder, FilterKind, OnOffOneshot, QueuePosition, Song, State, Status, Tag, Update,
    ValueChange, Version,
};
use crate::path;
use crate::player::Enqueue;
use crate::run::{Action, AddOutcome, ArtTarget, PlayerCall, Reply, Run, RunError};
use crate::run;
use crate::run_laws;
use crate::run_laws::PlayQueue;
use crate::text;
use vstd::prelude::*;

verus! {

/// A search of the database.
pub ghost struct Scan {
    /// Files that have not changed are read again, too.
    pub everything: bool,
    pub path: Option<Seq<char>>,
}

/// Something that is added at random.
pub ghost struct Pick {
    /// The tag whose values are picked; songs themselves where there is none.
    pub tag: Option<Tag>,
    pub count: int,
}

/// Going to another song of the queue.
pub ghost struct Skip {
    pub by: int,
    pub keep_state: bool,
    pub state: State,
}

/// A player and what it has in its care.
pub ghost struct Music {
    pub repeat: bool,
    pub random: bool,
    pub single: OnOffOneshot,
    pub consume: OnOffOneshot,
    pub volume: int,
    pub state: State,
    pub elapsed_ms: int,
    pub queue: PlayQueue,
    /// The songs of each stored playlist.
    pub playlists: Map<Seq<char>, Seq<Seq<char>>>,
    /// Whether each output is enabled.
    pub outputs: Map<u32, bool>,
    /// What is mounted under each name.
    pub mounts: Map<Seq<char>, Seq<char>>,
    /// The value of each sticker, by song and key.
    pub stickers: Map<(Seq<char>, Seq<char>), Seq<char>>,
    /// The messages that were sent, with their channels.
    pub messages: Seq<(Seq<char>, Seq<char>)>,
    pub scans: Seq<Scan>,
    pub picks: Seq<Pick>,
    pub skips: Seq<Skip>,
}

/// How a mode goes on to the next one, with or without `Oneshot`.
pub type Cycle = spec_fn(OnOffOneshot, bool) -> OnOffOneshot;

/// A number after a change.
pub open spec fn changed(value: ValueChange, from: int, unit: int) -> int {
    match value {
        ValueChange::SetTo(v) => v * unit,
        ValueChange::Increase(v) => from + v * unit,
        ValueChange::Decrease(v) => from - v * unit,
    }
}

impl Music {
    /// The player after a call that has succeeded. A question changes nothing.
    pub open spec fn after(self, call: PlayerCall, cycle: Cycle) -> Music {
        match call {
            PlayerCall::SetRepeat { enabled } => Music { repeat: enabled, ..self },
            PlayerCall::SetRandom { enabled } => Music { random: enabled, ..self },
            PlayerCall::SetSingle { single } => Music { single, ..self },
            PlayerCall::SetConsume { consume } => Music { consume, ..self },
            PlayerCall::CycleSingle { from, skip_oneshot } => Music {
                single: cycle(from, skip_oneshot),
                ..self
            },
            PlayerCall::CycleConsume { from, skip_oneshot } => Music {
                consume: cycle(from, skip_oneshot),
                ..self
            },
            PlayerCall::Volume { value } => Music {
                volume: changed(value, self.volume, 1),
                ..self
            },
            PlayerCall::SeekCurrent { value } => Music {
                elapsed_ms: changed(value, self.elapsed_ms, 1000),
                ..self
            },
            PlayerCall::Play { pos } => match pos {
                None => Music { state: State::Play, ..self },
                Some(p) => self.starting(p as int),
            },
            PlayerCall::PlayPos { pos } => self.starting(pos as int),
            PlayerCall::Pause => self.halted(),
            PlayerCall::Unpause => self.resumed(),
            PlayerCall::PauseToggle => if self.state == State::Play {
                self.halted()
            } else {
                self.resumed()
            },
            PlayerCall::Stop => Music { state: State::Stop, ..self },
            PlayerCall::NextKeepState { keep, state } => Music {
                skips: self.skips.push(Skip { by: 1, keep_state: keep, state }),
                ..self
            },
            PlayerCall::PrevKeepState { keep, state } => Music {
                skips: self.skips.push(Skip { by: -1, keep_state: keep, state }),
                ..self
            },
            PlayerCall::ClearQueue => Music {
                queue: PlayQueue { songs: Seq::empty(), current: -1 },
                ..self
            },
            PlayerCall::Add { uri, position } => Music {
                queue: self.queue.with(uri@, position),
                ..self
            },
            PlayerCall::SaveQueue { name, mode } => if mode is None {
                Music { playlists: self.playlists.insert(name@, self.queue.songs), ..self }
            } else {
                self
            },
            PlayerCall::AddDownloaded { path, position, .. } => Music {
                queue: self.queue.with(path@, position),
                ..self
            },
            PlayerCall::EnqueueOne { item, autoplay_idx, position, replace } => match item {
                Enqueue::File { path } => self.enqueuing(
                    seq![path@],
                    autoplay_idx,
                    position,
                    replace,
                ),
                Enqueue::Playlist { name } => self.enqueuing(
                    self.playlists[name@],
                    autoplay_idx,
                    position,
                    replace,
                ),
                Enqueue::Find { .. } => self,
            },
            PlayerCall::ToggleOutput { id } => Music {
                outputs: self.outputs.insert(id, !self.outputs[id]),
                ..self
            },
            PlayerCall::EnableOutput { id } => Music {
                outputs: self.outputs.insert(id, true),
                ..self
            },
            PlayerCall::DisableOutput { id } => Music {
                outputs: self.outputs.insert(id, false),
                ..self
            },
            PlayerCall::Mount { name, path } => Music {
                mounts: self.mounts.insert(name@, path@),
                ..self
            },
            PlayerCall::Unmount { name } => Music { mounts: self.mounts.remove(name@), ..self },
            PlayerCall::SetSticker { uri, key, value } => Music {
                stickers: self.stickers.insert((uri@, key@), value@),
                ..self
            },
            PlayerCall::DeleteSticker { uri, key } => Music {
                stickers: self.stickers.remove((uri@, key@)),
                ..self
            },
            PlayerCall::DeleteAllStickers { uri } => Music {
                stickers: self.stickers.remove_keys(
                    Set::new(|k: (Seq<char>, Seq<char>)| k.0 == uri@),
                ),
                ..self
            },
            PlayerCall::SendMessage { channel, content } => Music {
                messages: self.messages.push((channel@, content@)),
                ..self
            },
            PlayerCall::Update { path } => Music {
                scans: self.scans.push(Scan { everything: false, path: text_of(path) }),
                ..self
            },
            PlayerCall::Rescan { path } => Music {
                scans: self.scans.push(Scan { everything: true, path: text_of(path) }),
                ..self
            },
            PlayerCall::AddRandomSongs { count, filter } => if filter is None {
                Music { picks: self.picks.push(Pick { tag: None, count: count as int }), ..self }
            } else {
                self
            },
            PlayerCall::AddRandomTag { count, tag } => Music {
                picks: self.picks.push(Pick { tag: Some(tag), count: count as int }),
                ..self
            },
            PlayerCall::WaitForEvent | PlayerCall::GetStatus | PlayerCall::GetVersion
            | PlayerCall::GetQueue | PlayerCall::ListAll { .. } | PlayerCall::GetConfig
            | PlayerCall::Decoders | PlayerCall::Outputs | PlayerCall::FindOne { .. }
            | PlayerCall::CurrentSong | PlayerCall::ListMounts | PlayerCall::ListPartitions
            | PlayerCall::AlbumArt { .. } | PlayerCall::Sticker { .. }
            | PlayerCall::ListStickers { .. } | PlayerCall::FindStickers { .. } => self,
        }
    }

    /// Songs go into the queue side by side, which is cleared before where `replace`.
    pub open spec fn enqueuing(
        self,
        songs: Seq<Seq<char>>,
        autoplay_idx: Option<usize>,
        position: Option<QueuePosition>,
        replace: bool,
    ) -> Music {
        let kept = if replace {
            PlayQueue { songs: Seq::empty(), current: -1 }
        } else {
            self.queue
        };
        let at = kept.index_of(position);
        Music {
            queue: PlayQueue {
                songs: kept.songs.take(at) + songs + kept.songs.skip(at),
                current: match autoplay_idx {
                    Some(idx) => at + idx,
                    None => kept.current,
                },
            },
            ..self
        }
    }

    /// A player that plays is paused; another one stays as it is.
    pub open spec fn halted(self) -> Music {
        if self.state == State::Play {
            Music { state: State::Pause, ..self }
        } else {
            self
        }
    }

    /// A player that is paused plays on; another one stays as it is.
    pub open spec fn resumed(self) -> Music {
        if self.state == State::Pause {
            Music { state: State::Play, ..self }
        } else {
            self
        }
    }

    /// The song at `pos` is played from its beginning.
    pub open spec fn starting(self, pos: int) -> Music {
        Music {
            state: State::Play,
            elapsed_ms: 0,
            queue: PlayQueue { current: pos, ..self.queue },
            ..self
        }
    }

    /// `status` is what the player reports.
    pub open spec fn reports(self, status: Status) -> bool {
        &&& status.repeat == self.repeat
        &&& status.random == self.random
        &&& status.single == self.single
        &&& status.consume == self.consume
        &&& status.volume == self.volume
        &&& status.state == self.state
        &&& status.elapsed_ms == self.elapsed_ms
    }
}

/// A text, if there is one.
pub open spec fn text_of(s: Option<String>) -> Option<Seq<char>> {
    match s {
        Some(s) => Some(s@),
        None => None,
    }
}

/// The run ends well when its action has succeeded.
pub open spec fn ends(run: Run) -> bool {
    &&& run.accepts(Reply::Done)
    &&& run.accepts(Reply::Failed)
    &&& forall|next: Run, action: Action| #[trigger]
        run.steps(Reply::Done, next, action) ==> next is Over && action == Action::Finish
}

/// The action is a call that makes `after` out of `before`, and the run ends with it.
pub open spec fn comes_to(
    run: Run,
    action: Action,
    before: Music,
    after: Music,
    cycle: Cycle,
) -> bool {
    &&& action matches Action::Call(call)
    &&& before.after(call, cycle) == after
    &&& ends(run)
}

/// A command that has started makes `after` out of `before`, and does no more.
pub open spec fn does(plan: Plan, before: Music, after: Music, cycle: Cycle) -> bool {
    plan matches Plan::Start { run, action } && comes_to(run, action, before, after, cycle)
}

/// Each of the four modes is set by its own command, to the value that was given,
/// and leaves the other three as they were.
pub proof fn law_modes_are_set(
    value: bool,
    mode: OnOffOneshot,
    config: CliConfig,
    plan: Plan,
    before: Music,
    cycle: Cycle,
)
    ensures
        (Command::Repeat { value }).plans(config, plan) ==> does(
            plan,
            before,
            Music { repeat: value, ..before },
            cycle,
        ),
        (Command::Random { value }).plans(config, plan) ==> does(
            plan,
            before,
            Music { random: value, ..before },
            cycle,
        ),
        (Command::Single { value: mode }).plans(config, plan) ==> does(
            plan,
            before,
            Music { single: mode, ..before },
            cycle,
        ),
        (Command::Consume { value: mode }).plans(config, plan) ==> does(
            plan,
            before,
            Music { consume: mode, ..before },
            cycle,
        ),
{
}

/// Playing, pausing, going on and stopping; a position is played from its beginning.
/// What does not play cannot be paused, and what is not paused does not go on.
pub proof fn law_playback_commands(
    pos: usize,
    config: CliConfig,
    plan: Plan,
    before: Music,
    cycle: Cycle,
)
    ensures
        (Command::Play { position: None }).plans(config, plan) ==> does(
            plan,
            before,
            Music { state: State::Play, ..before },
            cycle,
        ),
        (Command::Play { position: Some(pos) }).plans(config, plan) ==> does(
            plan,
            before,
            before.starting(pos as int),
            cycle,
        ),
        Command::Pause.plans(config, plan) ==> does(
            plan,
            before,
            if before.state == State::Play {
                Music { state: State::Pause, ..before }
            } else {
                before
            },
            cycle,
        ),
        Command::Unpause.plans(config, plan) ==> does(
            plan,
            before,
            if before.state == State::Pause {
                Music { state: State::Play, ..before }
            } else {
                before
            },
            cycle,
        ),
        Command::Stop.plans(config, plan) ==> does(
            plan,
            before,
            Music { state: State::Stop, ..before },
            cycle,
        ),
        Command::Clear.plans(config, plan) ==> does(
            plan,
            before,
            Music { queue: PlayQueue { songs: Seq::empty(), current: -1 }, ..before },
            cycle,
        ),
{
}

/// The volume becomes the number that the text writes; what is not a number, or
/// too large a one, sets nothing.
pub proof fn law_the_volume_is_set(
    value: String,
    v: u32,
    config: CliConfig,
    plan: Plan,
    before: Music,
    cycle: Cycle,
)
    requires
        (Command::Volume { value: Some(value) }).plans(config, plan),
    ensures
        value@ == text::decimal(v as nat) ==> does(
            plan,
            before,
            Music { volume: v as int, ..before },
            cycle,
        ),
        value@.len() == 0 || (exists|i: int|
            1 <= i < value@.len() && !('0' <= #[trigger] value@[i] <= '9')) ==> plan == (
        Plan::Start { run: Run::Over, action: Action::Abort(RunError::InvalidNumber) }),
{
    if value@ == text::decimal(v as nat) {
        text::law_decimal_reads_back(v);
    }
    if exists|i: int| 1 <= i < value@.len() && !('0' <= #[trigger] value@[i] <= '9') {
        let i = choose|i: int| 1 <= i < value@.len() && !('0' <= #[trigger] value@[i] <= '9');
        let t = text::unsigned_part(value@);
        let j = if value@[0] == '+' {
            i - 1
        } else {
            i
        };
        assert(t[j] == value@[i]);
        if t.all(|c: char| text::is_digit(c)) {
            assert((|c: char| text::is_digit(c))(t[j]));
        }
    }
}

/// Outputs are toggled, enabled and disabled by their ids, and no other output is
/// touched.
pub proof fn law_outputs_are_switched(
    id: u32,
    config: CliConfig,
    plan: Plan,
    before: Music,
    cycle: Cycle,
)
    ensures
        (Command::ToggleOutput { id }).plans(config, plan) ==> does(
            plan,
            before,
            Music { outputs: before.outputs.insert(id, !before.outputs[id]), ..before },
            cycle,
        ),
        (Command::EnableOutput { id }).plans(config, plan) ==> does(
            plan,
            before,
            Music { outputs: before.outputs.insert(id, true), ..before },
            cycle,
        ),
        (Command::DisableOutput { id }).plans(config, plan) ==> does(
            plan,
            before,
            Music { outputs: before.outputs.insert(id, false), ..before },
            cycle,
        ),
{
}

/// Mounts are made and undone under their names, the queue is saved under one, and
/// a message goes to its channel.
pub proof fn law_names_mean_what_they_say(
    name: String,
    other: String,
    config: CliConfig,
    plan: Plan,
    before: Music,
    cycle: Cycle,
)
    ensures
        (Command::Mount { name, path: other }).plans(config, plan) ==> does(
            plan,
            before,
            Music { mounts: before.mounts.insert(name@, other@), ..before },
            cycle,
        ),
        (Command::Unmount { name }).plans(config, plan) ==> does(
            plan,
            before,
            Music { mounts: before.mounts.remove(name@), ..before },
            cycle,
        ),
        (Command::Save { name }).plans(config, plan) ==> does(
            plan,
            before,
            Music { playlists: before.playlists.insert(name@, before.queue.songs), ..before },
            cycle,
        ),
        (Command::SendMessage { channel: name, content: other }).plans(config, plan) ==> does(
            plan,
            before,
            Music { messages: before.messages.push((name@, other@)), ..before },
            cycle,
        ),
{
}

/// A sticker is set and deleted for its song and key alone; deleting all of a song
/// leaves those of other songs.
pub proof fn law_stickers_are_kept_apart(
    uri: String,
    key: String,
    value: String,
    config: CliConfig,
    plan: Plan,
    before: Music,
    cycle: Cycle,
)
    ensures
        (Command::Sticker { cmd: StickerCmd::Put { uri, key, value } }).plans(config, plan) ==> does(
            plan,
            before,
            Music { stickers: before.stickers.insert((uri@, key@), value@), ..before },
            cycle,
        ),
        (Command::Sticker { cmd: StickerCmd::Delete { uri, key } }).plans(config, plan) ==> does(
            plan,
            before,
            Music { stickers: before.stickers.remove((uri@, key@)), ..before },
            cycle,
        ),
        (Command::Sticker { cmd: StickerCmd::DeleteAll { uri } }).plans(config, plan) ==> does(
            plan,
            before,
            Music {
                stickers: before.stickers.remove_keys(
                    Set::new(|k: (Seq<char>, Seq<char>)| k.0 == uri@),
                ),
                ..before
            },
            cycle,
        ),
{
}

/// As many songs, or songs by as many artists, albums, album artists or genres, are
/// added at random as were asked for.
pub proof fn law_random_songs_are_added(
    count: usize,
    config: CliConfig,
    plan: Plan,
    before: Music,
    cycle: Cycle,
)
    ensures
        forall|tag: AddRandom| #[trigger]
            (Command::AddRandom { tag, count }).plans(config, plan) ==> does(
                plan,
                before,
                Music {
                    picks: before.picks.push(
                        Pick {
                            tag: match tag {
                                AddRandom::Song => None,
                                AddRandom::Artist => Some(Tag::Artist),
                                AddRandom::Album => Some(Tag::Album),
                                AddRandom::AlbumArtist => Some(Tag::AlbumArtist),
                                AddRandom::Genre => Some(Tag::Genre),
                            },
                            count: count as int,
                        },
                    ),
                    ..before
                },
                cycle,
            ),
{
}

/// `reply` is what comes back of `call` when it succeeds.
pub open spec fn answers(call: PlayerCall, reply: Reply) -> bool {
    match call {
        PlayerCall::GetStatus => reply is Status,
        PlayerCall::GetVersion => reply is Version,
        PlayerCall::GetConfig => reply is MusicDirectory,
        PlayerCall::Decoders => reply is Decoders,
        PlayerCall::ListAll { .. } => reply is Files,
        PlayerCall::FindOne { .. } | PlayerCall::CurrentSong => reply is Song,
        PlayerCall::AlbumArt { .. } => reply is Art,
        PlayerCall::Sticker { .. } => reply is Sticker,
        PlayerCall::Update { .. } | PlayerCall::Rescan { .. } => reply is Update,
        _ => reply is Done,
    }
}

/// The command asks with `call` before it does anything else, and takes every answer.
pub open spec fn asks(run: Run, first: Action, call: PlayerCall) -> bool {
    &&& first == Action::Call(call)
    &&& run.accepts(Reply::Failed)
    &&& forall|reply: Reply| answers(call, reply) ==> #[trigger] run.accepts(reply)
}

/// A command that needs to know something asks for it first, and takes every
/// answer to its question.
#[verifier::rlimit(60)]
pub proof fn law_what_is_asked_first(command: Command, config: CliConfig, run: Run, first: Action)
    requires
        command.plans(config, Plan::Start { run, action: first }),
    ensures
        match command {
            Command::TogglePause | Command::Next { .. } | Command::Prev { .. }
            | Command::ToggleRepeat | Command::ToggleRandom | Command::ToggleSingle { .. }
            | Command::ToggleConsume { .. } | Command::Volume { value: None } => asks(
                run,
                first,
                PlayerCall::GetStatus,
            ),
            Command::Song { path: None } | Command::AlbumArt { .. } => asks(
                run,
                first,
                PlayerCall::CurrentSong,
            ),
            Command::Song { path: Some(paths) } => paths@.len() > 0 ==> asks(
                run,
                first,
                PlayerCall::FindOne { filter: run::file_filter(paths@[0]) },
            ),
            Command::Update { path, .. } => asks(run, first, PlayerCall::Update { path }),
            Command::Rescan { path, .. } => asks(run, first, PlayerCall::Rescan { path }),
            Command::Sticker { cmd: StickerCmd::Get { uri, key } } => asks(
                run,
                first,
                PlayerCall::Sticker { uri, key },
            ),
            Command::ListAll { files } => asks(
                run,
                first,
                PlayerCall::ListAll {
                    path: if files@.len() == 0 {
                        None
                    } else {
                        Some(files@[0])
                    },
                },
            ),
            Command::Seek { value } => first == Action::ParseValueChange(value) && forall|
                change: ValueChange,
            | #[trigger]
                run.accepts(Reply::ValueChange(change)),
            Command::AddYt { url, .. } => {
                &&& first == Action::Download { url }
                &&& run.accepts(Reply::DownloadOver)
                &&& forall|file: String| #[trigger] run.accepts(Reply::Downloaded(file))
            },
            _ => true,
        },
{
}

/// Whatever a run does next, it takes every answer that can come of it, and every
/// failure of it where a failure can be told.
#[verifier::rlimit(60)]
pub proof fn law_every_answer_is_taken(
    before: Run,
    reply: Reply,
    after: Run,
    action: Action,
    next: Reply,
)
    requires
        before.accepts(reply),
        before.goes(reply, after, action),
    ensures
        action matches Action::Call(call) ==> (before !is Calls && answers(call, next)
            ==> after.accepts(next)),
        before is Calls && action is Call ==> (next is Done ==> after.accepts(next)),
        action is PrintReply || action is PrintSong || action is PrintSongs || action is PrintLines
            || action is WriteArt ==> (next is Done ==> after.accepts(next)),
        action is NextDownload ==> (next is Downloaded || next is DownloadOver ==> after.accepts(
            next,
        )),
        !run_laws::is_final(action) && !(action == Action::Call(PlayerCall::GetVersion)) ==> (
        next is Failed ==> after.accepts(next)),
{
}

/// The run has got a status that tells of `music`, and goes on.
pub open spec fn learns(music: Music, run: Run, status: Status, next: Run, action: Action) -> bool {
    music.reports(status) && run.goes(Reply::Status(status), next, action)
}

/// A command that toggles asks the player how things are, and turns them around:
/// what was on is off afterwards, what was off is on, and all else stays.
pub proof fn law_toggles_turn_around(
    config: CliConfig,
    run: Run,
    first: Action,
    status: Status,
    next: Run,
    action: Action,
    before: Music,
    cycle: Cycle,
)
    requires
        learns(before, run, status, next, action),
    ensures
        Command::ToggleRepeat.plans(config, Plan::Start { run, action: first }) ==> first
            == Action::Call(PlayerCall::GetStatus) && comes_to(
            next,
            action,
            before,
            Music { repeat: !before.repeat, ..before },
            cycle,
        ),
        Command::ToggleRandom.plans(config, Plan::Start { run, action: first }) ==> first
            == Action::Call(PlayerCall::GetStatus) && comes_to(
            next,
            action,
            before,
            Music { random: !before.random, ..before },
            cycle,
        ),
        Command::TogglePause.plans(config, Plan::Start { run, action: first }) ==> first
            == Action::Call(PlayerCall::GetStatus) && comes_to(
            next,
            action,
            before,
            Music {
                state: if before.state == State::Play {
                    State::Pause
                } else {
                    State::Play
                },
                ..before
            },
            cycle,
        ),
{
}

/// The next single mode, or consume mode, follows the present one; `Oneshot` is
/// left out where the user wants it so.
pub proof fn law_modes_are_cycled_without_oneshot(
    config: CliConfig,
    run: Run,
    first: Action,
    status: Status,
    next: Run,
    action: Action,
    before: Music,
    cycle: Cycle,
)
    requires
        learns(before, run, status, next, action),
    ensures
        (Command::ToggleSingle { skip_oneshot: true }).plans(
            config,
            Plan::Start { run, action: first },
        ) ==> comes_to(
            next,
            action,
            before,
            Music { single: cycle(before.single, true), ..before },
            cycle,
        ),
        (Command::ToggleConsume { skip_oneshot: true }).plans(
            config,
            Plan::Start { run, action: first },
        ) ==> comes_to(
            next,
            action,
            before,
            Music { consume: cycle(before.consume, true), ..before },
            cycle,
        ),
{
}

/// Otherwise the version of the player decides: single mode knows `Oneshot` from
/// 0.21 on, consume mode from 0.24 on.
pub proof fn law_modes_are_cycled_by_version(
    config: CliConfig,
    run: Run,
    first: Action,
    status: Status,
    asking: Run,
    asks: Action,
    version: Version,
    next: Run,
    action: Action,
    before: Music,
    cycle: Cycle,
)
    requires
        learns(before, run, status, asking, asks),
        asking.goes(Reply::Version(version), next, action),
    ensures
        (Command::ToggleSingle { skip_oneshot: false }).plans(
            config,
            Plan::Start { run, action: first },
        ) ==> asks == Action::Call(PlayerCall::GetVersion) && comes_to(
            next,
            action,
            before,
            Music {
                single: cycle(before.single, version.major == 0 && version.minor <= 20),
                ..before
            },
            cycle,
        ),
        (Command::ToggleConsume { skip_oneshot: false }).plans(
            config,
            Plan::Start { run, action: first },
        ) ==> asks == Action::Call(PlayerCall::GetVersion) && comes_to(
            next,
            action,
            before,
            Music {
                consume: cycle(before.consume, version.major == 0 && version.minor <= 23),
                ..before
            },
            cycle,
        ),
{
}

/// The next and the previous song are gone to in the present state. Where at least
/// `secs` seconds of the song have been played, and the user wants it so, it goes
/// back to the beginning of the song instead.
pub proof fn law_neighbours_are_gone_to(
    config: CliConfig,
    keep_state: bool,
    secs: u64,
    run: Run,
    first: Action,
    status: Status,
    next: Run,
    action: Action,
    before: Music,
    cycle: Cycle,
)
    requires
        learns(before, run, status, next, action),
    ensures
        (Command::Next { keep_state }).plans(config, Plan::Start { run, action: first })
            ==> comes_to(
            next,
            action,
            before,
            Music {
                skips: before.skips.push(Skip { by: 1, keep_state, state: before.state }),
                ..before
            },
            cycle,
        ),
        (Command::Prev { rewind_to_start: None, keep_state }).plans(
            config,
            Plan::Start { run, action: first },
        ) ==> comes_to(
            next,
            action,
            before,
            Music {
                skips: before.skips.push(Skip { by: -1, keep_state, state: before.state }),
                ..before
            },
            cycle,
        ),
        (Command::Prev { rewind_to_start: Some(secs), keep_state }).plans(
            config,
            Plan::Start { run, action: first },
        ) ==> comes_to(
            next,
            action,
            before,
            if before.elapsed_ms >= 1000 * (secs as int) {
                Music { elapsed_ms: 0, ..before }
            } else {
                Music {
                    skips: before.skips.push(Skip { by: -1, keep_state, state: before.state }),
                    ..before
                }
            },
            cycle,
        ),
{
}

/// Seeking takes the player to where the change leads that the text means.
pub proof fn law_seeking(
    value: String,
    config: CliConfig,
    run: Run,
    first: Action,
    change: ValueChange,
    next: Run,
    action: Action,
    before: Music,
    cycle: Cycle,
)
    requires
        (Command::Seek { value }).plans(config, Plan::Start { run, action: first }),
        run.goes(Reply::ValueChange(change), next, action),
    ensures
        first == Action::ParseValueChange(value),
        comes_to(
            next,
            action,
            before,
            Music { elapsed_ms: changed(change, before.elapsed_ms, 1000), ..before },
            cycle,
        ),
{
}

/// The database is searched for changes, or read anew, below the path that was
/// given or as a whole.
pub proof fn law_the_database_is_searched(
    path: Option<String>,
    wait: bool,
    config: CliConfig,
    run: Run,
    first: Action,
    before: Music,
    cycle: Cycle,
)
    ensures
        (Command::Update { path, wait }).plans(config, Plan::Start { run, action: first }) ==> (
        first matches Action::Call(call) && before.after(call, cycle) == (Music {
            scans: before.scans.push(Scan { everything: false, path: text_of(path) }),
            ..before
        })),
        (Command::Rescan { path, wait }).plans(config, Plan::Start { run, action: first }) ==> (
        first matches Action::Call(call) && before.after(call, cycle) == (Music {
            scans: before.scans.push(Scan { everything: true, path: text_of(path) }),
            ..before
        })),
{
}

/// What a question is about.
pub ghost enum Topic {
    Status,
    Queue,
    Decoders,
    Outputs,
    Mounts,
    Partitions,
    StickersOf { uri: Seq<char> },
    StickersNamed { below: Seq<char>, key: Seq<char> },
    OneSticker { uri: Seq<char>, key: Seq<char> },
    CurrentSong,
}

/// What a call asks for.
pub open spec fn topic_of(call: PlayerCall) -> Option<Topic> {
    match call {
        PlayerCall::GetStatus => Some(Topic::Status),
        PlayerCall::GetQueue => Some(Topic::Queue),
        PlayerCall::Decoders => Some(Topic::Decoders),
        PlayerCall::Outputs => Some(Topic::Outputs),
        PlayerCall::ListMounts => Some(Topic::Mounts),
        PlayerCall::ListPartitions => Some(Topic::Partitions),
        PlayerCall::ListStickers { uri } => Some(Topic::StickersOf { uri: uri@ }),
        PlayerCall::FindStickers { uri, key, filter } => if filter is None {
            Some(Topic::StickersNamed { below: uri@, key: key@ })
        } else {
            None
        },
        PlayerCall::Sticker { uri, key } => Some(Topic::OneSticker { uri: uri@, key: key@ }),
        PlayerCall::CurrentSong => Some(Topic::CurrentSong),
        _ => None,
    }
}

/// The command asks about `topic`, prints the answer, and does no more.
pub open spec fn prints(plan: Plan, topic: Topic) -> bool {
    &&& plan matches Plan::Start { run, action }
    &&& action matches Action::Call(call)
    &&& topic_of(call) == Some(topic)
    &&& run.accepts(Reply::Value)
    &&& forall|next: Run, then: Action| #[trigger]
        run.steps(Reply::Value, next, then) ==> then == Action::PrintReply && ends(next)
}

/// A command that shows something asks for just that, and prints the answer.
pub proof fn law_what_is_shown(
    uri: String,
    key: String,
    config: CliConfig,
    plan: Plan,
)
    ensures
        Command::Status.plans(config, plan) ==> prints(plan, Topic::Status),
        Command::Queue.plans(config, plan) ==> prints(plan, Topic::Queue),
        Command::Decoders.plans(config, plan) ==> prints(plan, Topic::Decoders),
        Command::Outputs.plans(config, plan) ==> prints(plan, Topic::Outputs),
        Command::ListMounts.plans(config, plan) ==> prints(plan, Topic::Mounts),
        Command::ListPartitions.plans(config, plan) ==> prints(plan, Topic::Partitions),
        (Command::Sticker { cmd: StickerCmd::List { uri } }).plans(config, plan) ==> prints(
            plan,
            Topic::StickersOf { uri: uri@ },
        ),
        (Command::Sticker { cmd: StickerCmd::Find { uri, key } }).plans(config, plan) ==> prints(
            plan,
            Topic::StickersNamed { below: uri@, key: key@ },
        ),
{
}

/// A sticker is printed where there is one; otherwise the command fails with exit
/// code 1.
pub proof fn law_one_sticker_is_shown(
    uri: String,
    key: String,
    config: CliConfig,
    run: Run,
    first: Action,
    found: bool,
    next: Run,
    action: Action,
)
    requires
        (Command::Sticker { cmd: StickerCmd::Get { uri, key } }).plans(
            config,
            Plan::Start { run, action: first },
        ),
        run.goes(Reply::Sticker { found }, next, action),
    ensures
        first matches Action::Call(call) && topic_of(call) == Some(
            Topic::OneSticker { uri: uri@, key: key@ },
        ),
        found ==> action == Action::PrintReply && ends(next),
        !found ==> action == Action::Exit(1) && next is Over,
{
}

/// The volume is printed as the number that it is.
pub proof fn law_the_volume_is_shown(
    config: CliConfig,
    run: Run,
    first: Action,
    status: Status,
    next: Run,
    action: Action,
)
    requires
        (Command::Volume { value: None }).plans(config, Plan::Start { run, action: first }),
        run.goes(Reply::Status(status), next, action),
    ensures
        first == Action::Call(PlayerCall::GetStatus),
        ends(next),
        action matches Action::PrintLines(lines) && lines@.len() == 1 && text::u32_value(
            lines@[0]@,
        ) == Some(status.volume),
{
    text::law_decimal_reads_back(status.volume);
}

/// The current song is printed where there is one; otherwise the command fails
/// with exit code 1.
pub proof fn law_the_current_song_is_shown(
    config: CliConfig,
    run: Run,
    first: Action,
    song: Option<Song>,
    next: Run,
    action: Action,
)
    requires
        (Command::Song { path: None }).plans(config, Plan::Start { run, action: first }),
        run.goes(Reply::Song(song), next, action),
    ensures
        first == Action::Call(PlayerCall::CurrentSong),
        match song {
            Some(song) => action == Action::PrintSong(song) && ends(next),
            None => action == Action::Exit(1) && next is Over,
        },
{
}

/// A song is looked for by its whole file name, in its own case, and printed where
/// there is one; otherwise the user is told which file is missing.
pub proof fn law_one_song_is_shown(
    paths: Vec<String>,
    config: CliConfig,
    run: Run,
    first: Action,
    song: Option<Song>,
    next: Run,
    action: Action,
)
    requires
        paths@.len() == 1,
        (Command::Song { path: Some(paths) }).plans(config, Plan::Start { run, action: first }),
        run.goes(Reply::Song(song), next, action),
    ensures
        first matches Action::Call(PlayerCall::FindOne { filter }) && filter.tag is File
            && filter.kind == FilterKind::Exact && filter.value@ == paths@[0]@,
        match song {
            Some(song) => action == Action::PrintSong(song) && ends(next),
            None => {
                &&& next is Over
                &&& action matches Action::PrintLineAndExit(line)
                &&& line@ == "Song with path '"@ + paths@[0]@ + "' not found."@
            },
        },
{
}

/// Of several songs, each is looked for by its whole file name; the first that is
/// missing ends the command, and the user is told which it is.
pub proof fn law_a_missing_song_is_told(
    path: String,
    rest: Vec<String>,
    found: Vec<Song>,
    next: Run,
    action: Action,
)
    requires
        (Run::Songs { path, rest, found }).goes(Reply::Song(None), next, action),
    ensures
        next is Over,
        action matches Action::PrintLineAndExit(line) && line@ == "Song with path '"@ + path@
            + "' not found."@,
{
}

/// Without paths everything is listed, and all of the answer is printed; without
/// songs to show none are.
pub proof fn law_nothing_given_lists_everything(
    none: Vec<String>,
    config: CliConfig,
    run: Run,
    first: Action,
    files: Vec<String>,
    next: Run,
    action: Action,
)
    requires
        none@.len() == 0,
    ensures
        (Command::ListAll { files: none }).plans(config, Plan::Start { run, action: first }) ==> {
            &&& first == Action::Call(PlayerCall::ListAll { path: None })
            &&& run.accepts(Reply::Files(files))
            &&& run.steps(Reply::Files(files), next, action) ==> ends(next) && (
            action matches Action::PrintLines(lines) && lines@ == files@)
        },
        (Command::Song { path: Some(none) }).plans(config, Plan::Start { run, action: first }) ==> {
            &&& first matches Action::PrintSongs(songs) && songs@.len() == 0
            &&& ends(run)
        },
{
    match run {
        Run::ListAll { rest, found } => {
            if rest@.len() == 0 && found@.len() == 0 {
                assert(found@ + files@ =~= files@);
            }
        },
        _ => {},
    }
}

/// The filter that songs are looked for with lets exactly those through whose
/// file is the path that was given.
pub proof fn law_songs_are_found_by_their_whole_path(path: String)
    ensures
        run::file_filter(path).tag is File,
        run::file_filter(path).kind == FilterKind::Exact,
        run::file_filter(path).value@ == path@,
{
}

/// The cover of the current song is asked for, an embedded one first, and written
/// to where the user wants it: to the terminal for a dash, else to that file. The
/// exit code tells what is missing: 3 for the song, 2 for the cover.
pub proof fn law_the_cover_is_written(
    output: String,
    config: CliConfig,
    run: Run,
    first: Action,
    song: Option<Song>,
    asking: Run,
    asks: Action,
    art: Option<Vec<u8>>,
    next: Run,
    action: Action,
)
    requires
        (Command::AlbumArt { output }).plans(config, Plan::Start { run, action: first }),
        run.goes(Reply::Song(song), asking, asks),
        song is Some ==> asking.goes(Reply::Art(art), next, action),
    ensures
        first == Action::Call(PlayerCall::CurrentSong),
        song is None ==> asks == Action::Exit(3) && asking is Over,
        song matches Some(song) ==> (asks matches Action::Call(PlayerCall::AlbumArt { file, order })
            && file@ == song.file@ && order == AlbumArtOrder::EmbeddedFirst),
        song is Some && art is None ==> action == Action::Exit(2) && next is Over,
        song is Some ==> (art matches Some(bytes) ==> {
            &&& ends(next)
            &&& action matches Action::WriteArt { target, data }
            &&& data@ == bytes@
            &&& output@ == seq!['-'] ==> target is Stdout
            &&& output@ != seq!['-'] ==> (target matches ArtTarget::File(path) && path@ == output@)
        }),
{
}

/// The lyrics below the configured directory are indexed; without one the command
/// fails.
pub proof fn law_lyrics_are_indexed(config: CliConfig, run: Run, first: Action)
    requires
        Command::LyricsIndex.plans(config, Plan::Start { run, action: first }),
    ensures
        config.lyrics_dir matches Some(dir) ==> (first matches Action::IndexLyrics { dir: d }
            && d@ == dir@ && ends(run)),
        config.lyrics_dir is None ==> run is Over && (first matches Action::Abort(e) && e.text()
            == Some("Lyrics dir is not configured"@)),
        RunError::InvalidNumber.text() is None && RunError::ActionFailed.text() is None,
{
}

/// A command that belongs elsewhere is refused, and the refusal names it.
pub proof fn law_refusals_name_the_command()
    ensures
        Command::Config.refusal() matches Some(e) && e.text()
            == "Cannot use config command here."@,
        Command::Theme.refusal() matches Some(e) && e.text() == "Cannot use theme command here."@,
        Command::Version.refusal() matches Some(e) && e.text()
            == "Cannot use version command here."@,
        Command::DebugInfo.refusal() matches Some(e) && e.text()
            == "Cannot use debuginfo command here."@,
        Command::Raw.refusal() matches Some(e) && e.text() == "Cannot use raw command here."@,
        Command::Remote.refusal() matches Some(e) && e.text()
            == "Cannot use remote command here."@,
        Command::SpotifyLogin.refusal() matches Some(e) && e.text()
            == "SpotifyLogin should be handled in main."@,
        forall|c: Command| #[trigger]
            c.refusal() is Some ==> c is Config || c is Theme || c is Version || c is DebugInfo
                || c is Raw || c is Remote || c is SpotifyLogin,
{
}

/// Every downloaded file goes into the queue at the position that was asked for;
/// what the cache holds is told along. One that cannot be added is reported, and
/// the download goes on.
pub proof fn law_downloads_are_added(
    url: String,
    position: Option<QueuePosition>,
    config: CliConfig,
    run: Run,
    first: Action,
    path: String,
    adding: Run,
    adds: Action,
    reply: Reply,
    next: Run,
    action: Action,
)
    requires
        (Command::AddYt { url, position }).plans(config, Plan::Start { run, action: first }),
        run.goes(Reply::Downloaded(path), adding, adds),
        reply is Done || reply is Failed,
        adding.goes(reply, next, action),
    ensures
        first matches Action::Download { url: u } && u@ == url@,
        adds matches Action::Call(PlayerCall::AddDownloaded { path: p, cache_dir, position: at })
            && p@ == path@ && cache_dir == config.cache_dir && at == position,
        next == run,
        reply is Done ==> action == Action::NextDownload(AddOutcome::Added),
        reply is Failed ==> action == Action::NextDownload(AddOutcome::Reported),
        forall|over: Run, then: Action| #[trigger]
            run.steps(Reply::DownloadOver, over, then) ==> over is Over && then == Action::Finish,
{
}

/// A search goes to the site that was named, for the query without the blanks
/// around it; unless the user picks, one result is enough.
pub proof fn law_a_search_asks_for_what_was_given(
    query: String,
    provider: Provider,
    interactive: bool,
    limit: usize,
    position: Option<QueuePosition>,
    config: CliConfig,
    plan: Plan,
)
    requires
        (Command::SearchYt { query, provider, interactive, limit, position }).plans(config, plan),
    ensures
        (Command::SearchYt { query, provider, interactive, limit, position }).refusal() is None,
        plan matches Plan::Search(search) && {
            &&& provider is Youtube <==> search.host is Youtube
            &&& provider is Soundcloud <==> search.host is Soundcloud
            &&& provider is Nicovideo <==> search.host is NicoVideo
            &&& search.query@ == text::trimmed(query@)
            &&& interactive ==> search.limit == limit
            &&& !interactive ==> search.limit == 1
            &&& search.interactive == interactive
            &&& search.given@ == query@
            &&& search.position == position
            &&& search.cache_dir == config.cache_dir
        },
{
}

/// No other command has to search before it starts.
pub proof fn law_only_a_search_searches(command: Command, config: CliConfig, plan: Plan)
    requires
        command.plans(config, plan),
    ensures
        plan is Search <==> command is SearchYt,
{
}

/// The first result of a search is downloaded, and what comes of it goes into the
/// queue at the position that was asked for; where it cannot be added, the download
/// is told so. Without results the user is told what was looked for.
pub proof fn law_the_first_result_is_added(
    search: Search,
    urls: Seq<String>,
    r: Result<(Run, Action), CommandError>,
    path: String,
    adding: Run,
    adds: Action,
    next: Run,
    action: Action,
)
    requires
        search.picks(urls, r),
        r matches Ok((run, _)) ==> run.accepts(Reply::Downloaded(path)) ==> run.goes(
            Reply::Downloaded(path),
            adding,
            adds,
        ) && adding.goes(Reply::Failed, next, action),
    ensures
        r is Ok <==> urls.len() > 0,
        match r {
            Ok((run, first)) => {
                &&& run.accepts(Reply::Downloaded(path))
                &&& first matches Action::Download { url } && url@ == urls[0]@
                &&& adds matches Action::Call(
                    PlayerCall::AddDownloaded { path: p, cache_dir, position },
                ) && p@ == path@ && cache_dir == search.cache_dir && position == search.position
                &&& next == run
                &&& action == Action::NextDownload(AddOutcome::Refused)
            },
            Err(e) => e.text() == "No results found for query '"@ + search.given@ + "'"@,
        },
{
}

/// The text that tells of a search without results quotes the query.
pub proof fn law_a_fruitless_search_quotes_the_query(query: String)
    ensures
        (CommandError::NoResults { query }).text() == "No results found for query '"@ + query@
            + "'"@,
{
}

/// A command that searches the database is over when the player has begun, or, where
/// the user wants to wait, when the player works on nothing, or on something that
/// was started later.
pub proof fn law_a_scan_is_waited_for(
    command: Command,
    path: Option<String>,
    wait: bool,
    config: CliConfig,
    run: Run,
    first: Action,
    job: Update,
    next: Run,
    action: Action,
    looking: Run,
    asks: Action,
    status: Status,
    checked: Run,
    then: Action,
)
    requires
        command == (Command::Update { path, wait }) || command == (Command::Rescan { path, wait }),
        command.plans(config, Plan::Start { run, action: first }),
        run.goes(Reply::Update(job), next, action),
        wait ==> next.goes(Reply::Done, looking, asks),
        wait ==> looking.goes(Reply::Status(status), checked, then),
    ensures
        !wait ==> next is Over && action == Action::Finish,
        wait ==> {
            &&& action == Action::Call(PlayerCall::WaitForEvent)
            &&& next.accepts(Reply::Done)
            &&& asks == Action::Call(PlayerCall::GetStatus)
            &&& looking.accepts(Reply::Status(status))
            &&& match status.updating_db {
                None => checked is Over && then == Action::Finish,
                Some(current) => if current > job.job_id {
                    checked is Over && then == Action::Finish
                } else {
                    then == Action::Call(PlayerCall::WaitForEvent) && checked == next
                },
            }
        },
{
}

/// An absolute path needs a player that tells its music directory: without one the
/// user is told so, and nothing is added.
pub proof fn law_absolute_paths_need_a_music_directory(
    files: Vec<String>,
    skip_ext_check: bool,
    position: Option<QueuePosition>,
    config: CliConfig,
    run: Run,
    first: Action,
    next: Run,
    action: Action,
)
    requires
        exists|i: int|
            0 <= i < files@.len() && (#[trigger] files@[i])@.len() > 0 && files@[i]@[0] == '/',
        (Command::Add { files, skip_ext_check, position }).plans(
            config,
            Plan::Start { run, action: first },
        ),
        run.goes(Reply::MusicDirectory(None), next, action),
    ensures
        first == Action::Call(PlayerCall::GetConfig),
        next is Over,
        action matches Action::ReportAndFinish(line) && line@
            == "Cannot add absolute path without socket connection to MPD"@,
{
    let i = choose|i: int|
        0 <= i < files@.len() && (#[trigger] files@[i])@.len() > 0 && files@[i]@[0] == '/';
    assert(path::rooted(files@[i]@));
}

/// The playlists go behind the queue, one after the other, in the order in which
/// they were named; nothing is taken out of the queue, and nothing is started.
#[verifier::rlimit(60)]
pub proof fn law_playlists_are_loaded(
    names: Vec<String>,
    config: CliConfig,
    plan: Plan,
    runs: Seq<Run>,
    actions: Seq<Action>,
    states: Seq<Music>,
    cycle: Cycle,
)
    requires
        (Command::Load { names }).plans(config, plan),
        plan == (Plan::Start { run: runs[0], action: actions[0] }),
        runs.len() == names@.len() + 1,
        actions.len() == runs.len(),
        states.len() == runs.len(),
        forall|i: int|
            0 <= i < names@.len() ==> (#[trigger] runs[i]).goes(
                Reply::Done,
                runs[i + 1],
                actions[i + 1],
            ),
        forall|i: int|
            0 <= i < names@.len() ==> (#[trigger] actions[i] matches Action::Call(call)
                && states[i + 1] == states[i].after(call, cycle)),
    ensures
        actions.last() == Action::Finish,
        states.last() == (Music {
            queue: PlayQueue {
                songs: states[0].queue.songs + all_songs(text::views(names@), states[0].playlists),
                ..states[0].queue
            },
            ..states[0]
        }),
{
    let calls = command::load_calls(names@);
    run_laws::law_all_calls_are_made(calls, runs, actions);
    lemma_loaded(names@, actions, states, cycle, names@.len() as int);
    assert(names@.take(names@.len() as int) =~= names@);
}

/// The songs of several playlists, one playlist after the other.
pub open spec fn all_songs(
    names: Seq<Seq<char>>,
    playlists: Map<Seq<char>, Seq<Seq<char>>>,
) -> Seq<Seq<char>>
    decreases names.len(),
{
    if names.len() == 0 {
        Seq::empty()
    } else {
        all_songs(names.drop_last(), playlists) + playlists[names.last()]
    }
}

#[verifier::rlimit(60)]
proof fn lemma_loaded(
    names: Seq<String>,
    actions: Seq<Action>,
    states: Seq<Music>,
    cycle: Cycle,
    n: int,
)
    requires
        0 <= n <= names.len(),
        actions.len() == names.len() + 1,
        states.len() == names.len() + 1,
        forall|i: int|
            0 <= i < names.len() ==> actions[i] == Action::Call(
                #[trigger] command::load_calls(names)[i],
            ),
        forall|i: int|
            0 <= i < names.len() ==> (#[trigger] actions[i] matches Action::Call(call)
                && states[i + 1] == states[i].after(call, cycle)),
    ensures
        states[n] == (Music {
            queue: PlayQueue {
                songs: states[0].queue.songs + all_songs(
                    text::views(names.take(n)),
                    states[0].playlists,
                ),
                ..states[0].queue
            },
            ..states[0]
        }),
    decreases n,
{
    if n == 0 {
        assert(text::views(names.take(0)).len() == 0);
        assert(states[0].queue.songs + all_songs(
            text::views(names.take(0)),
            states[0].playlists,
        ) =~= states[0].queue.songs);
    } else {
        lemma_loaded(names, actions, states, cycle, n - 1);
        let name = names[n - 1];
        assert(command::load_calls(names)[n - 1] == run::playlist_call(name));
        assert(actions[n - 1] is Call);
        let before = states[n - 1].queue;
        let taken = text::views(names.take(n));
        assert(taken.drop_last() =~= text::views(names.take(n - 1)));
        assert(taken.last() == name@);
        let at = before.songs.len() as int;
        assert(before.songs.take(at) + states[0].playlists[name@] + before.songs.skip(at)
            =~= states[0].queue.songs + all_songs(taken, states[0].playlists));
    }
}

} // verus!
